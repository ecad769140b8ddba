//! The five instructions: create, verify and revoke an identity; grant and
//! revoke a delegation. Each one's outcome, and the state it leaves, is stated
//! by an open spec function over the registry.

use crate::address::{
    delegation_address_matches, delegation_seeds, elit_address_matches, elit_seeds,
    find_delegation_address, find_elit_address, found_program_address, program_address,
    with_bump, Key,
};
use crate::registry::{
    byte_len, DelegationAccount, DelegationEntry, ElitAccount, ElitEntry, ElitError, ElitStatus,
    Registry, MAX_AVATAR_URI_LEN, MAX_BIO_LEN, MAX_NAME_LEN, MAX_PERSONALITY_HASH_LEN,
    MAX_RESTRICTIONS_LEN, MAX_SCOPE_LEN,
};
use vstd::prelude::*;

verus! {

/// Accounts of `create_elit`: the signing owner of the new identity.
#[derive(Clone, Copy, Debug)]
pub struct CreateElit {
    pub owner: Key,
}

/// Accounts of `verify_elit`: the address of the identity to check.
#[derive(Clone, Copy, Debug)]
pub struct VerifyElit {
    pub elit: Key,
}

/// Accounts of `delegate`: the identity, its signing owner, and the key that
/// receives the delegation.
#[derive(Clone, Copy, Debug)]
pub struct Delegate {
    pub elit: Key,
    pub owner: Key,
    pub delegate_authority: Key,
}

/// Accounts of `revoke_elit`: the identity and its signing owner.
#[derive(Clone, Copy, Debug)]
pub struct RevokeElit {
    pub elit: Key,
    pub owner: Key,
}

/// Accounts of `revoke_delegation`: the identity, the delegation, and the
/// identity's signing owner.
#[derive(Clone, Copy, Debug)]
pub struct RevokeDelegation {
    pub elit: Key,
    pub delegation: Key,
    pub owner: Key,
}

pub open spec fn elit_fields_fit(
    name: String,
    bio: String,
    personality_hash: String,
    avatar_uri: String,
) -> bool {
    &&& byte_len(name) <= MAX_NAME_LEN
    &&& byte_len(bio) <= MAX_BIO_LEN
    &&& byte_len(personality_hash) <= MAX_PERSONALITY_HASH_LEN
    &&& byte_len(avatar_uri) <= MAX_AVATAR_URI_LEN
}

pub open spec fn delegation_fields_fit(scope: String, restrictions: String) -> bool {
    &&& byte_len(scope) <= MAX_SCOPE_LEN
    &&& byte_len(restrictions) <= MAX_RESTRICTIONS_LEN
}

/// The identity at `elit` exists, `owner` is its owner, and the record
/// re-derives its address from the owner and its bump.
pub open spec fn owner_check(reg: Registry, elit: Seq<u8>, owner: Seq<u8>) -> Result<(), ElitError> {
    if !reg.has_elit(elit) {
        Err(ElitError::NotFound)
    } else if reg.elit(elit).owner@ != owner {
        Err(ElitError::Unauthorized)
    } else if program_address(with_bump(elit_seeds(owner), reg.elit(elit).bump), reg.program_id@)
        != Some(elit) {
        Err(ElitError::InvalidAddress)
    } else {
        Ok(())
    }
}

pub open spec fn create_elit_result(
    reg: Registry,
    ctx: CreateElit,
    name: String,
    bio: String,
    personality_hash: String,
    avatar_uri: String,
) -> Result<(), ElitError> {
    match found_program_address(elit_seeds(ctx.owner@), reg.program_id@) {
        None => Err(ElitError::InvalidAddress),
        Some((a, _)) => if reg.has_elit(a) {
            Err(ElitError::DuplicateRecord)
        } else if !elit_fields_fit(name, bio, personality_hash, avatar_uri) {
            Err(ElitError::FieldTooLong)
        } else {
            Ok(())
        },
    }
}

/// `post` is what `create_elit` leaves of `pre` when it returns `r`: on
/// success, one new active identity at the owner's derived address.
pub open spec fn create_elit_post(
    pre: Registry,
    post: Registry,
    ctx: CreateElit,
    name: String,
    bio: String,
    personality_hash: String,
    avatar_uri: String,
    now: i64,
    r: Result<(), ElitError>,
) -> bool {
    &&& r == create_elit_result(pre, ctx, name, bio, personality_hash, avatar_uri)
    &&& match r {
        Ok(()) => {
            let (a, b) = found_program_address(elit_seeds(ctx.owner@), pre.program_id@)->Some_0;
            &&& program_address(with_bump(elit_seeds(ctx.owner@), b), pre.program_id@) == Some(a)
            &&& post.program_id == pre.program_id
            &&& post.delegations@ == pre.delegations@
            &&& post.elits@.len() == pre.elits@.len() + 1
            &&& post.elits@.drop_last() == pre.elits@
            &&& post.elits@.last().address@ == a
            &&& post.elits@.last().account == (ElitAccount {
                owner: ctx.owner,
                name,
                bio,
                personality_hash,
                avatar_uri,
                created_at: now,
                status: ElitStatus::Active,
                bump: b,
            })
        },
        Err(_) => post == pre,
    }
}

pub open spec fn verify_elit_result(reg: Registry, ctx: VerifyElit) -> Result<(), ElitError> {
    let a = ctx.elit@;
    if !reg.has_elit(a) {
        Err(ElitError::NotFound)
    } else if program_address(
        with_bump(elit_seeds(reg.elit(a).owner@), reg.elit(a).bump),
        reg.program_id@,
    ) != Some(a) {
        Err(ElitError::InvalidAddress)
    } else if reg.elit(a).status == ElitStatus::Revoked {
        Err(ElitError::ElitRevoked)
    } else {
        Ok(())
    }
}

pub open spec fn delegate_result(
    reg: Registry,
    ctx: Delegate,
    scope: String,
    restrictions: String,
) -> Result<(), ElitError> {
    match owner_check(reg, ctx.elit@, ctx.owner@) {
        Err(e) => Err(e),
        Ok(()) => match found_program_address(
            delegation_seeds(ctx.elit@, ctx.delegate_authority@),
            reg.program_id@,
        ) {
            None => Err(ElitError::InvalidAddress),
            Some((a, _)) => if reg.has_delegation(a) {
                Err(ElitError::DuplicateRecord)
            } else if !delegation_fields_fit(scope, restrictions) {
                Err(ElitError::FieldTooLong)
            } else {
                Ok(())
            },
        },
    }
}

/// `post` is what `delegate` leaves of `pre` when it returns `r`: on success,
/// one new active delegation at the address derived from the identity and
/// the delegate.
pub open spec fn delegate_post(
    pre: Registry,
    post: Registry,
    ctx: Delegate,
    scope: String,
    expires_at: i64,
    restrictions: String,
    now: i64,
    r: Result<(), ElitError>,
) -> bool {
    &&& r == delegate_result(pre, ctx, scope, restrictions)
    &&& match r {
        Ok(()) => {
            let seeds = delegation_seeds(ctx.elit@, ctx.delegate_authority@);
            let (a, b) = found_program_address(seeds, pre.program_id@)->Some_0;
            &&& program_address(with_bump(seeds, b), pre.program_id@) == Some(a)
            &&& post.program_id == pre.program_id
            &&& post.elits@ == pre.elits@
            &&& post.delegations@.len() == pre.delegations@.len() + 1
            &&& post.delegations@.drop_last() == pre.delegations@
            &&& post.delegations@.last().address@ == a
            &&& post.delegations@.last().account == (DelegationAccount {
                elit: ctx.elit,
                delegate: ctx.delegate_authority,
                scope,
                expires_at,
                restrictions,
                created_at: now,
                active: true,
                bump: b,
            })
        },
        Err(_) => post == pre,
    }
}

/// `post` is what `revoke_elit` leaves of `pre` when it returns `r`: on
/// success, the identity's status is `Revoked` and nothing else changed.
pub open spec fn revoke_elit_post(pre: Registry, post: Registry, ctx: RevokeElit, r: Result<
    (),
    ElitError,
>) -> bool {
    &&& r == owner_check(pre, ctx.elit@, ctx.owner@)
    &&& match r {
        Ok(()) => {
            let i = pre.elit_index(ctx.elit@);
            let old_entry = pre.elits@[i];
            &&& post.program_id == pre.program_id
            &&& post.delegations@ == pre.delegations@
            &&& post.elits@ == pre.elits@.update(
                i,
                ElitEntry {
                    address: old_entry.address,
                    account: ElitAccount { status: ElitStatus::Revoked, ..old_entry.account },
                },
            )
        },
        Err(_) => post == pre,
    }
}

pub open spec fn revoke_delegation_result(reg: Registry, ctx: RevokeDelegation) -> Result<
    (),
    ElitError,
> {
    if !reg.has_elit(ctx.elit@) || !reg.has_delegation(ctx.delegation@) {
        Err(ElitError::NotFound)
    } else {
        match owner_check(reg, ctx.elit@, ctx.owner@) {
            Err(e) => Err(e),
            Ok(()) => {
                let d = reg.delegation(ctx.delegation@);
                if program_address(
                    with_bump(delegation_seeds(ctx.elit@, d.delegate@), d.bump),
                    reg.program_id@,
                ) != Some(ctx.delegation@) {
                    Err(ElitError::InvalidAddress)
                } else {
                    Ok(())
                }
            },
        }
    }
}

/// `post` is what `revoke_delegation` leaves of `pre` when it returns `r`: on
/// success, the delegation is inactive and nothing else changed.
pub open spec fn revoke_delegation_post(
    pre: Registry,
    post: Registry,
    ctx: RevokeDelegation,
    r: Result<(), ElitError>,
) -> bool {
    &&& r == revoke_delegation_result(pre, ctx)
    &&& match r {
        Ok(()) => {
            let i = pre.delegation_index(ctx.delegation@);
            let old_entry = pre.delegations@[i];
            &&& post.program_id == pre.program_id
            &&& post.elits@ == pre.elits@
            &&& post.delegations@ == pre.delegations@.update(
                i,
                DelegationEntry {
                    address: old_entry.address,
                    account: DelegationAccount { active: false, ..old_entry.account },
                },
            )
        },
        Err(_) => post == pre,
    }
}

fn fits(s: &String, max: usize) -> (r: bool)
    ensures
        r == (byte_len(*s) <= max),
{
    s.as_str().as_bytes().len() <= max
}

/// Checks that `owner` owns the identity at `elit` and that the record sits at
/// its derived address; returns the record's position.
fn check_owner(reg: &Registry, elit: &Key, owner: &Key) -> (r: Result<usize, ElitError>)
    requires
        reg.wf(),
    ensures
        match r {
            Ok(i) => owner_check(*reg, elit@, owner@) is Ok && i as int == reg.elit_index(elit@)
                && reg.has_elit(elit@),
            Err(e) => owner_check(*reg, elit@, owner@) == Err::<(), ElitError>(e),
        },
{
    let i = match reg.find_elit(elit) {
        Some(i) => i,
        None => return Err(ElitError::NotFound),
    };
    let acct = &reg.elits[i].account;
    if !acct.owner.same(owner) {
        return Err(ElitError::Unauthorized);
    }
    if !elit_address_matches(&reg.program_id, owner, acct.bump, elit) {
        return Err(ElitError::InvalidAddress);
    }
    Ok(i)
}

/// Registers a new active identity for the signing owner, at the address
/// derived from the tag "elit" and the owner's key, stamped with `now`.
pub fn create_elit(
    reg: &mut Registry,
    ctx: &CreateElit,
    name: String,
    bio: String,
    personality_hash: String,
    avatar_uri: String,
    now: i64,
) -> (r: Result<(), ElitError>)
    requires
        old(reg).wf(),
    ensures
        final(reg).wf(),
        create_elit_post(
            *old(reg),
            *final(reg),
            *ctx,
            name,
            bio,
            personality_hash,
            avatar_uri,
            now,
            r,
        ),
{
    let (address, bump) = match find_elit_address(&reg.program_id, &ctx.owner) {
        Some(found) => found,
        None => return Err(ElitError::InvalidAddress),
    };
    if reg.find_elit(&address).is_some() {
        return Err(ElitError::DuplicateRecord);
    }
    if !(fits(&name, MAX_NAME_LEN) && fits(&bio, MAX_BIO_LEN) && fits(
        &personality_hash,
        MAX_PERSONALITY_HASH_LEN,
    ) && fits(&avatar_uri, MAX_AVATAR_URI_LEN)) {
        return Err(ElitError::FieldTooLong);
    }
    let account = ElitAccount {
        owner: ctx.owner,
        name,
        bio,
        personality_hash,
        avatar_uri,
        created_at: now,
        status: ElitStatus::Active,
        bump,
    };
    reg.elits.push(ElitEntry { address, account });
    proof {
        let n = old(reg).elits@.len() as int;
        assert(final(reg).elits@.drop_last() =~= old(reg).elits@);
        assert forall|i: int| 0 <= i < n implies #[trigger] final(reg).elits@[i].address@
            != address@ by {
            assert(final(reg).elits@[i] == old(reg).elits@[i]);
        }
    }
    Ok(())
}

/// Succeeds when the identity at the given address exists, sits at its
/// derived address, and is active.
pub fn verify_elit(reg: &Registry, ctx: &VerifyElit) -> (r: Result<(), ElitError>)
    requires
        reg.wf(),
    ensures
        r == verify_elit_result(*reg, *ctx),
{
    let i = match reg.find_elit(&ctx.elit) {
        Some(i) => i,
        None => return Err(ElitError::NotFound),
    };
    let acct = &reg.elits[i].account;
    if !elit_address_matches(&reg.program_id, &acct.owner, acct.bump, &ctx.elit) {
        return Err(ElitError::InvalidAddress);
    }
    match acct.status {
        ElitStatus::Active => Ok(()),
        ElitStatus::Revoked => Err(ElitError::ElitRevoked),
    }
}

/// Grants a delegation from the identity to `delegate_authority`, signed by
/// the identity's owner, at the address derived from the tag "delegation",
/// the identity's address and the delegate's key.
pub fn delegate(
    reg: &mut Registry,
    ctx: &Delegate,
    scope: String,
    expires_at: i64,
    restrictions: String,
    now: i64,
) -> (r: Result<(), ElitError>)
    requires
        old(reg).wf(),
    ensures
        final(reg).wf(),
        delegate_post(*old(reg), *final(reg), *ctx, scope, expires_at, restrictions, now, r),
{
    match check_owner(reg, &ctx.elit, &ctx.owner) {
        Ok(_) => {},
        Err(e) => return Err(e),
    }
    let (address, bump) = match find_delegation_address(
        &reg.program_id,
        &ctx.elit,
        &ctx.delegate_authority,
    ) {
        Some(found) => found,
        None => return Err(ElitError::InvalidAddress),
    };
    if reg.find_delegation(&address).is_some() {
        return Err(ElitError::DuplicateRecord);
    }
    if !(fits(&scope, MAX_SCOPE_LEN) && fits(&restrictions, MAX_RESTRICTIONS_LEN)) {
        return Err(ElitError::FieldTooLong);
    }
    let account = DelegationAccount {
        elit: ctx.elit,
        delegate: ctx.delegate_authority,
        scope,
        expires_at,
        restrictions,
        created_at: now,
        active: true,
        bump,
    };
    reg.delegations.push(DelegationEntry { address, account });
    proof {
        let n = old(reg).delegations@.len() as int;
        assert(final(reg).delegations@.drop_last() =~= old(reg).delegations@);
        assert forall|i: int| 0 <= i < n implies #[trigger] final(reg).delegations@[i].address@
            != address@ by {
            assert(final(reg).delegations@[i] == old(reg).delegations@[i]);
        }
    }
    Ok(())
}

/// Marks the identity revoked, signed by its owner. Delegations granted from
/// it are left as they are.
pub fn revoke_elit(reg: &mut Registry, ctx: &RevokeElit) -> (r: Result<(), ElitError>)
    requires
        old(reg).wf(),
    ensures
        final(reg).wf(),
        revoke_elit_post(*old(reg), *final(reg), *ctx, r),
{
    let i = match check_owner(reg, &ctx.elit, &ctx.owner) {
        Ok(i) => i,
        Err(e) => return Err(e),
    };
    let mut entry = reg.elits.remove(i);
    entry.account.status = ElitStatus::Revoked;
    reg.elits.insert(i, entry);
    proof {
        let ghost e = old(reg).elits@[i as int];
        assert(final(reg).elits@ =~= old(reg).elits@.update(
            i as int,
            ElitEntry {
                address: e.address,
                account: ElitAccount { status: ElitStatus::Revoked, ..e.account },
            },
        ));
        assert forall|j: int| 0 <= j < final(reg).elits@.len() implies
            #[trigger] final(reg).elits@[j].address@ == old(reg).elits@[j].address@ by {}
    }
    Ok(())
}

/// Marks the delegation inactive, signed by the owner of the identity that
/// granted it. The identity and other delegations are left as they are.
pub fn revoke_delegation(reg: &mut Registry, ctx: &RevokeDelegation) -> (r: Result<
    (),
    ElitError,
>)
    requires
        old(reg).wf(),
    ensures
        final(reg).wf(),
        revoke_delegation_post(*old(reg), *final(reg), *ctx, r),
{
    if reg.find_elit(&ctx.elit).is_none() {
        return Err(ElitError::NotFound);
    }
    let k = match reg.find_delegation(&ctx.delegation) {
        Some(k) => k,
        None => return Err(ElitError::NotFound),
    };
    match check_owner(reg, &ctx.elit, &ctx.owner) {
        Ok(_) => {},
        Err(e) => return Err(e),
    }
    let d = &reg.delegations[k].account;
    if !delegation_address_matches(&reg.program_id, &ctx.elit, &d.delegate, d.bump, &ctx.delegation) {
        return Err(ElitError::InvalidAddress);
    }
    let mut entry = reg.delegations.remove(k);
    entry.account.active = false;
    reg.delegations.insert(k, entry);
    proof {
        let ghost e = old(reg).delegations@[k as int];
        assert(final(reg).delegations@ =~= old(reg).delegations@.update(
            k as int,
            DelegationEntry {
                address: e.address,
                account: DelegationAccount { active: false, ..e.account },
            },
        ));
        assert forall|j: int| 0 <= j < final(reg).delegations@.len() implies
            #[trigger] final(reg).delegations@[j].address@ == old(reg).delegations@[j].address@ by {}
    }
    Ok(())
}

/// Whether a delegation may be honoured at time `now`: not revoked, and not
/// yet past its expiry.
pub fn is_delegation_live(d: &DelegationAccount, now: i64) -> (r: bool)
    ensures
        r == (d.active && now < d.expires_at),
{
    d.active && now < d.expires_at
}

} // verus!
