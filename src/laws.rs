//! Properties that relate the instructions to one another, proved from their
//! contracts.

use crate::address::{
    delegation_seeds, elit_seeds, found_program_address, program_address, with_bump, Key,
};
use crate::elits::{
    create_elit_post, delegate_post, revoke_delegation_post, revoke_elit_post, verify_elit_result,
    Delegate, RevokeDelegation, RevokeElit, VerifyElit, CreateElit,
};
use crate::registry::{DelegationAccount, ElitError, Registry};
use vstd::prelude::*;

verus! {

/// Deriving an address twice from the same tag, key material and program
/// gives the same address and bump.
pub proof fn lemma_derivation_deterministic(
    program: Seq<u8>,
    seeds1: Seq<Seq<u8>>,
    seeds2: Seq<Seq<u8>>,
)
    requires
        seeds1 == seeds2,
    ensures
        found_program_address(seeds1, program) == found_program_address(seeds2, program),
        program_address(seeds1, program) == program_address(seeds2, program),
{
}

/// Distinct owners give distinct identity seeds; distinct (identity, delegate)
/// pairs give distinct delegation seeds; and identity seeds never coincide
/// with delegation seeds, with or without a bump.
pub proof fn lemma_seeds_injective(
    o1: Seq<u8>,
    o2: Seq<u8>,
    e1: Seq<u8>,
    d1: Seq<u8>,
    e2: Seq<u8>,
    d2: Seq<u8>,
    b1: u8,
    b2: u8,
)
    ensures
        elit_seeds(o1) == elit_seeds(o2) <==> o1 == o2,
        delegation_seeds(e1, d1) == delegation_seeds(e2, d2) <==> (e1 == e2 && d1 == d2),
        elit_seeds(o1) != delegation_seeds(e1, d1),
        with_bump(elit_seeds(o1), b1) != with_bump(delegation_seeds(e1, d1), b2),
{
    if elit_seeds(o1) == elit_seeds(o2) {
        assert(elit_seeds(o1)[1] == o1);
        assert(elit_seeds(o2)[1] == o2);
    }
    if delegation_seeds(e1, d1) == delegation_seeds(e2, d2) {
        assert(delegation_seeds(e1, d1)[1] == e1);
        assert(delegation_seeds(e2, d2)[1] == e2);
        assert(delegation_seeds(e1, d1)[2] == d1);
        assert(delegation_seeds(e2, d2)[2] == d2);
    }
    assert(elit_seeds(o1).len() == 2);
    assert(delegation_seeds(e1, d1).len() == 3);
    assert(with_bump(elit_seeds(o1), b1).len() == 3);
    assert(with_bump(delegation_seeds(e1, d1), b2).len() == 4);
}

/// Once `create_elit` has succeeded, verifying the identity at the owner's
/// derived address succeeds.
pub proof fn lemma_created_elit_verifies(
    pre: Registry,
    post: Registry,
    ctx: CreateElit,
    name: String,
    bio: String,
    personality_hash: String,
    avatar_uri: String,
    now: i64,
    address: Key,
)
    requires
        pre.wf(),
        create_elit_post(pre, post, ctx, name, bio, personality_hash, avatar_uri, now, Ok(())),
        found_program_address(elit_seeds(ctx.owner@), pre.program_id@) matches Some((a, _))
            && a == address@,
    ensures
        verify_elit_result(post, VerifyElit { elit: address }) == Ok::<(), ElitError>(()),
{
    let n = pre.elits@.len() as int;
    assert(post.elits@[n] == post.elits@.last());
    assert(post.has_elit(address@));
    let k = post.elit_index(address@);
    if k != n {
        assert(post.elits@[k] == post.elits@.drop_last()[k]);
        assert(pre.has_elit(address@));
    }
}

/// Once the owner has revoked an identity, verifying it fails with
/// `ElitRevoked`.
pub proof fn lemma_revoked_elit_fails_verify(pre: Registry, post: Registry, ctx: RevokeElit)
    requires
        pre.wf(),
        revoke_elit_post(pre, post, ctx, Ok(())),
    ensures
        verify_elit_result(post, VerifyElit { elit: ctx.elit }) == Err::<(), ElitError>(
            ElitError::ElitRevoked,
        ),
{
    let a = ctx.elit@;
    let i = pre.elit_index(a);
    assert(post.elits@[i].address@ == a);
    assert(post.has_elit(a));
    let k = post.elit_index(a);
    if k != i {
        assert(post.elits@[k] == pre.elits@[k]);
        assert(pre.elits@[k].address@ == a);
        assert(pre.elits@[i].address@ == a);
    }
}

/// `revoke_elit` signed by a key other than the identity's owner fails with
/// `Unauthorized` and changes nothing.
pub proof fn lemma_revoke_by_other_key_refused(
    pre: Registry,
    post: Registry,
    ctx: RevokeElit,
    r: Result<(), ElitError>,
)
    requires
        pre.wf(),
        pre.has_elit(ctx.elit@),
        pre.elit(ctx.elit@).owner@ != ctx.owner@,
        revoke_elit_post(pre, post, ctx, r),
    ensures
        r == Err::<(), ElitError>(ElitError::Unauthorized),
        post == pre,
{
}

/// `delegate` signed by a key other than the identity's owner fails with
/// `Unauthorized` and changes nothing: neither the identity nor any
/// delegation.
pub proof fn lemma_delegate_by_other_key_refused(
    pre: Registry,
    post: Registry,
    ctx: Delegate,
    scope: String,
    expires_at: i64,
    restrictions: String,
    now: i64,
    r: Result<(), ElitError>,
)
    requires
        pre.wf(),
        pre.has_elit(ctx.elit@),
        pre.elit(ctx.elit@).owner@ != ctx.owner@,
        delegate_post(pre, post, ctx, scope, expires_at, restrictions, now, r),
    ensures
        r == Err::<(), ElitError>(ElitError::Unauthorized),
        post == pre,
{
}

/// A successful `revoke_delegation` clears the active flag of the one
/// delegation named and changes nothing else: no other field of it, no other
/// delegation, and no identity.
pub proof fn lemma_revoke_delegation_touches_one(
    pre: Registry,
    post: Registry,
    ctx: RevokeDelegation,
)
    requires
        pre.wf(),
        revoke_delegation_post(pre, post, ctx, Ok(())),
    ensures
        post.elits@ == pre.elits@,
        post.delegations@.len() == pre.delegations@.len(),
        post.has_delegation(ctx.delegation@),
        post.delegation(ctx.delegation@) == (DelegationAccount {
            active: false,
            ..pre.delegation(ctx.delegation@)
        }),
        forall|j: int|
            0 <= j < post.delegations@.len() && post.delegations@[j].address@
                != ctx.delegation@ ==> #[trigger] post.delegations@[j] == pre.delegations@[j],
{
    let a = ctx.delegation@;
    let i = pre.delegation_index(a);
    assert(post.delegations@[i].address@ == a);
    assert(post.has_delegation(a));
    let k = post.delegation_index(a);
    if k != i {
        assert(post.delegations@[k] == pre.delegations@[k]);
        assert(pre.delegations@[k].address@ == a);
        assert(pre.delegations@[i].address@ == a);
    }
}

} // verus!
