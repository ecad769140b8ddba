use anchor_lang::prelude::Pubkey;
use elits::address::{
    delegation_address_matches, elit_address_matches, find_delegation_address, find_elit_address,
    Key,
};
use elits::elits::{
    create_elit, delegate, is_delegation_live, revoke_delegation, revoke_elit, verify_elit,
    CreateElit, Delegate, RevokeDelegation, RevokeElit, VerifyElit,
};
use elits::registry::{DelegationAccount, ElitError, ElitStatus, Registry};
use std::str::FromStr;

const PROGRAM: &str = "5RPvUJ1pAQpeADq4QDX179etC3SUmk6q1TFdMYYqGNPF";

fn program() -> Key {
    Key::new(Pubkey::from_str(PROGRAM).unwrap().to_bytes())
}

fn key(b: u8) -> Key {
    Key::new([b; 32])
}

fn s(x: &str) -> String {
    x.to_string()
}

fn register(reg: &mut Registry, owner: Key, name: &str) -> Key {
    let r = create_elit(
        reg,
        &CreateElit { owner },
        s(name),
        s("bio"),
        s("hash"),
        s("https://example.org/a.png"),
        1_000,
    );
    assert_eq!(r, Ok(()));
    find_elit_address(&reg.program_id, &owner).unwrap().0
}

fn grant(reg: &mut Registry, owner: Key, elit: Key, delegate_key: Key, scope: &str) -> Key {
    let r = delegate(
        reg,
        &Delegate { elit, owner, delegate_authority: delegate_key },
        s(scope),
        5_000,
        s("none"),
        2_000,
    );
    assert_eq!(r, Ok(()));
    find_delegation_address(&reg.program_id, &elit, &delegate_key).unwrap().0
}

#[test]
fn create_then_verify_succeeds() {
    let mut reg = Registry::new(program());
    let addr = register(&mut reg, key(1), "Ada");
    assert_eq!(verify_elit(&reg, &VerifyElit { elit: addr }), Ok(()));
    let acct = reg.elit_at(&addr).unwrap();
    assert!(acct.owner == key(1));
    assert_eq!(acct.name, "Ada");
    assert_eq!(acct.bio, "bio");
    assert_eq!(acct.personality_hash, "hash");
    assert_eq!(acct.avatar_uri, "https://example.org/a.png");
    assert_eq!(acct.created_at, 1_000);
    assert_eq!(acct.status, ElitStatus::Active);
}

#[test]
fn scenario_owner_revokes_identity_delegation_stays_active() {
    let o = key(1);
    let d = key(2);
    let mut reg = Registry::new(program());
    let addr = register(&mut reg, o, "Ada");
    assert_eq!(reg.elit_at(&addr).unwrap().status, ElitStatus::Active);
    let r = delegate(
        &mut reg,
        &Delegate { elit: addr, owner: o, delegate_authority: d },
        s("read-only"),
        1_700_000_000,
        s(""),
        1_000,
    );
    assert_eq!(r, Ok(()));
    let del_addr = find_delegation_address(&reg.program_id, &addr, &d).unwrap().0;
    assert_eq!(verify_elit(&reg, &VerifyElit { elit: addr }), Ok(()));
    assert_eq!(revoke_elit(&mut reg, &RevokeElit { elit: addr, owner: o }), Ok(()));
    assert_eq!(verify_elit(&reg, &VerifyElit { elit: addr }), Err(ElitError::ElitRevoked));
    let del = reg.delegation_at(&del_addr).unwrap();
    assert!(del.active);
    assert_eq!(del.scope, "read-only");
    assert_eq!(del.expires_at, 1_700_000_000);
    assert!(del.elit == addr);
    assert!(del.delegate == d);
}

#[test]
fn scenario_non_owner_cannot_revoke_identity() {
    let mut reg = Registry::new(program());
    let addr = register(&mut reg, key(1), "Ada");
    let r = revoke_elit(&mut reg, &RevokeElit { elit: addr, owner: key(9) });
    assert_eq!(r, Err(ElitError::Unauthorized));
    assert_eq!(reg.elit_at(&addr).unwrap().status, ElitStatus::Active);
    assert_eq!(verify_elit(&reg, &VerifyElit { elit: addr }), Ok(()));
}

#[test]
fn duplicate_identity_is_refused() {
    let mut reg = Registry::new(program());
    register(&mut reg, key(1), "Ada");
    let r = create_elit(&mut reg, &CreateElit { owner: key(1) }, s("Bob"), s(""), s(""), s(""), 5);
    assert_eq!(r, Err(ElitError::DuplicateRecord));
    assert_eq!(reg.elits.len(), 1);
    assert_eq!(reg.elits[0].account.name, "Ada");
}

#[test]
fn field_lengths_are_bounded_in_bytes() {
    let mut reg = Registry::new(program());
    let long_name = "a".repeat(51);
    let r = create_elit(&mut reg, &CreateElit { owner: key(1) }, long_name, s(""), s(""), s(""), 0);
    assert_eq!(r, Err(ElitError::FieldTooLong));
    assert_eq!(reg.elits.len(), 0);
    // 25 two-byte characters are exactly 50 bytes.
    let r = create_elit(&mut reg, &CreateElit { owner: key(1) }, "é".repeat(25), s(""), s(""), s(""), 0);
    assert_eq!(r, Ok(()));
    let r = create_elit(&mut reg, &CreateElit { owner: key(2) }, "é".repeat(26), s(""), s(""), s(""), 0);
    assert_eq!(r, Err(ElitError::FieldTooLong));
    let r = create_elit(
        &mut reg,
        &CreateElit { owner: key(3) },
        s("n"),
        "b".repeat(280),
        "h".repeat(64),
        "u".repeat(200),
        0,
    );
    assert_eq!(r, Ok(()));
    for (bio, hash, uri) in [(281, 0, 0), (0, 65, 0), (0, 0, 201)] {
        let r = create_elit(
            &mut reg,
            &CreateElit { owner: key(4) },
            s("n"),
            "b".repeat(bio),
            "h".repeat(hash),
            "u".repeat(uri),
            0,
        );
        assert_eq!(r, Err(ElitError::FieldTooLong));
    }
}

#[test]
fn verify_unknown_address_is_not_found() {
    let reg = Registry::new(program());
    assert_eq!(verify_elit(&reg, &VerifyElit { elit: key(7) }), Err(ElitError::NotFound));
}

#[test]
fn non_owner_cannot_delegate() {
    let mut reg = Registry::new(program());
    let addr = register(&mut reg, key(1), "Ada");
    let before = reg.delegations.len();
    let r = delegate(
        &mut reg,
        &Delegate { elit: addr, owner: key(9), delegate_authority: key(2) },
        s("all"),
        10,
        s(""),
        0,
    );
    assert_eq!(r, Err(ElitError::Unauthorized));
    assert_eq!(reg.delegations.len(), before);
    assert_eq!(reg.elit_at(&addr).unwrap().status, ElitStatus::Active);
}

#[test]
fn delegation_errors() {
    let mut reg = Registry::new(program());
    let addr = register(&mut reg, key(1), "Ada");
    let missing = delegate(
        &mut reg,
        &Delegate { elit: key(5), owner: key(1), delegate_authority: key(2) },
        s(""),
        0,
        s(""),
        0,
    );
    assert_eq!(missing, Err(ElitError::NotFound));
    grant(&mut reg, key(1), addr, key(2), "read");
    let again = delegate(
        &mut reg,
        &Delegate { elit: addr, owner: key(1), delegate_authority: key(2) },
        s("write"),
        0,
        s(""),
        0,
    );
    assert_eq!(again, Err(ElitError::DuplicateRecord));
    let too_long = delegate(
        &mut reg,
        &Delegate { elit: addr, owner: key(1), delegate_authority: key(3) },
        "s".repeat(101),
        0,
        s(""),
        0,
    );
    assert_eq!(too_long, Err(ElitError::FieldTooLong));
    let too_long = delegate(
        &mut reg,
        &Delegate { elit: addr, owner: key(1), delegate_authority: key(3) },
        "s".repeat(100),
        0,
        "r".repeat(201),
        0,
    );
    assert_eq!(too_long, Err(ElitError::FieldTooLong));
    assert_eq!(reg.delegations.len(), 1);
}

#[test]
fn a_record_at_the_wrong_address_is_refused() {
    let mut reg = Registry::new(program());
    let addr = register(&mut reg, key(1), "Ada");
    // Move the record to an address that its seeds do not produce.
    reg.elits[0].address = key(8);
    assert_eq!(verify_elit(&reg, &VerifyElit { elit: key(8) }), Err(ElitError::InvalidAddress));
    let r = revoke_elit(&mut reg, &RevokeElit { elit: key(8), owner: key(1) });
    assert_eq!(r, Err(ElitError::InvalidAddress));
    assert_eq!(verify_elit(&reg, &VerifyElit { elit: addr }), Err(ElitError::NotFound));
}

#[test]
fn revoke_delegation_touches_only_one() {
    let o = key(1);
    let mut reg = Registry::new(program());
    let addr = register(&mut reg, o, "Ada");
    let d1 = grant(&mut reg, o, addr, key(2), "read");
    let d2 = grant(&mut reg, o, addr, key(3), "write");
    let r = revoke_delegation(&mut reg, &RevokeDelegation { elit: addr, delegation: d1, owner: o });
    assert_eq!(r, Ok(()));
    let first = reg.delegation_at(&d1).unwrap();
    assert!(!first.active);
    assert_eq!(first.scope, "read");
    assert!(reg.delegation_at(&d2).unwrap().active);
    assert_eq!(reg.elit_at(&addr).unwrap().status, ElitStatus::Active);
    assert_eq!(verify_elit(&reg, &VerifyElit { elit: addr }), Ok(()));
}

#[test]
fn revoke_delegation_errors() {
    let o = key(1);
    let mut reg = Registry::new(program());
    let addr = register(&mut reg, o, "Ada");
    let d1 = grant(&mut reg, o, addr, key(2), "read");
    let r = revoke_delegation(&mut reg, &RevokeDelegation { elit: addr, delegation: d1, owner: key(2) });
    assert_eq!(r, Err(ElitError::Unauthorized));
    assert!(reg.delegation_at(&d1).unwrap().active);
    let r = revoke_delegation(&mut reg, &RevokeDelegation { elit: addr, delegation: key(4), owner: o });
    assert_eq!(r, Err(ElitError::NotFound));
    // A delegation of another identity cannot be revoked through this one.
    let other = register(&mut reg, key(5), "Bob");
    let d_other = grant(&mut reg, key(5), other, key(2), "read");
    let r = revoke_delegation(&mut reg, &RevokeDelegation { elit: addr, delegation: d_other, owner: o });
    assert_eq!(r, Err(ElitError::InvalidAddress));
    assert!(reg.delegation_at(&d_other).unwrap().active);
}

#[test]
fn derivation_is_deterministic_and_separates_inputs() {
    let p = program();
    let a1 = find_elit_address(&p, &key(1)).unwrap();
    let a2 = find_elit_address(&p, &key(1)).unwrap();
    assert!(a1.0 == a2.0);
    assert_eq!(a1.1, a2.1);
    let b = find_elit_address(&p, &key(2)).unwrap();
    assert!(!(a1.0 == b.0));
    let d1 = find_delegation_address(&p, &a1.0, &key(2)).unwrap();
    let d2 = find_delegation_address(&p, &a1.0, &key(3)).unwrap();
    let d3 = find_delegation_address(&p, &b.0, &key(2)).unwrap();
    assert!(!(d1.0 == d2.0));
    assert!(!(d1.0 == d3.0));
    assert!(!(d1.0 == a1.0));
    // The derived address is a hash, not the key material handed in.
    assert!(!(a1.0 == key(1)));
    assert!(!(a1.0 == p));
}

#[test]
fn derivation_agrees_with_the_bump_check() {
    let p = program();
    let owner = key(1);
    let (addr, bump) = find_elit_address(&p, &owner).unwrap();
    assert!(elit_address_matches(&p, &owner, bump, &addr));
    assert!(!elit_address_matches(&p, &key(2), bump, &addr));
    let expected = Pubkey::find_program_address(&[b"elit", &owner.bytes], &Pubkey::new_from_array(p.bytes));
    assert_eq!(addr.bytes, expected.0.to_bytes());
    assert_eq!(bump, expected.1);
    let (daddr, dbump) = find_delegation_address(&p, &addr, &key(2)).unwrap();
    assert!(delegation_address_matches(&p, &addr, &key(2), dbump, &daddr));
    assert!(!delegation_address_matches(&p, &addr, &key(3), dbump, &daddr));
    let expected = Pubkey::find_program_address(
        &[b"delegation", &addr.bytes, &key(2).bytes],
        &Pubkey::new_from_array(p.bytes),
    );
    assert_eq!(daddr.bytes, expected.0.to_bytes());
    assert_eq!(dbump, expected.1);
}

#[test]
fn delegation_liveness() {
    let d = DelegationAccount {
        elit: key(1),
        delegate: key(2),
        scope: s("read"),
        expires_at: 100,
        restrictions: s(""),
        created_at: 0,
        active: true,
        bump: 255,
    };
    assert!(is_delegation_live(&d, 99));
    assert!(!is_delegation_live(&d, 100));
    let revoked = DelegationAccount { active: false, ..d };
    assert!(!is_delegation_live(&revoked, 0));
}

#[test]
fn delegating_from_a_revoked_identity_is_allowed() {
    let o = key(1);
    let mut reg = Registry::new(program());
    let addr = register(&mut reg, o, "Ada");
    assert_eq!(revoke_elit(&mut reg, &RevokeElit { elit: addr, owner: o }), Ok(()));
    grant(&mut reg, o, addr, key(2), "read");
    // Revoking twice is accepted and leaves the identity revoked.
    assert_eq!(revoke_elit(&mut reg, &RevokeElit { elit: addr, owner: o }), Ok(()));
    assert_eq!(reg.elit_at(&addr).unwrap().status, ElitStatus::Revoked);
}

#[test]
fn well_formedness_detects_shared_addresses() {
    let mut reg = Registry::new(program());
    assert!(reg.is_wf());
    let a = register(&mut reg, key(1), "Ada");
    register(&mut reg, key(2), "Bob");
    assert!(reg.is_wf());
    reg.elits[1].address = a;
    assert!(!reg.is_wf());
}
