//! Deterministic record addresses: a domain tag and key material are hashed
//! into a program-derived address, together with the bump byte that lets a
//! stored record re-derive (and so prove) its own address.

use anchor_lang::prelude::Pubkey;
use vstd::prelude::*;

verus! {

/// A 32-byte public key or record address.
#[derive(Clone, Copy, Debug)]
pub struct Key {
    pub bytes: [u8; 32],
}

impl View for Key {
    type V = Seq<u8>;

    open spec fn view(&self) -> Seq<u8> {
        self.bytes@
    }
}

impl Key {
    pub fn new(bytes: [u8; 32]) -> (r: Key)
        ensures
            r@ == bytes@,
    {
        Key { bytes }
    }

    /// Byte-wise equality of two keys.
    pub fn same(&self, other: &Key) -> (r: bool)
        ensures
            r == (self@ == other@),
    {
        let mut i: usize = 0;
        while i < 32
            invariant
                0 <= i <= 32,
                self@.len() == 32,
                other@.len() == 32,
                forall|j: int| 0 <= j < i ==> self@[j] == other@[j],
            decreases 32 - i,
        {
            if self.bytes[i] != other.bytes[i] {
                return false;
            }
            i = i + 1;
        }
        assert(self@ =~= other@);
        true
    }

    /// The key's bytes as a vector.
    pub fn to_vec(&self) -> (r: Vec<u8>)
        ensures
            r@ == self@,
    {
        let mut r: Vec<u8> = Vec::new();
        let mut i: usize = 0;
        while i < 32
            invariant
                0 <= i <= 32,
                self@.len() == 32,
                r@ == self@.subrange(0, i as int),
            decreases 32 - i,
        {
            r.push(self.bytes[i]);
            i = i + 1;
        }
        assert(r@ =~= self@);
        r
    }
}

impl PartialEq for Key {
    fn eq(&self, other: &Key) -> (r: bool) {
        self.same(other)
    }
}

impl vstd::std_specs::cmp::PartialEqSpecImpl for Key {
    open spec fn obeys_eq_spec() -> bool {
        true
    }

    open spec fn eq_spec(&self, other: &Key) -> bool {
        self@ == other@
    }
}

/// The domain tag of identity records: the bytes of "elit".
pub open spec fn elit_tag() -> Seq<u8> {
    seq![101u8, 108u8, 105u8, 116u8]
}

/// The domain tag of delegation records: the bytes of "delegation".
pub open spec fn delegation_tag() -> Seq<u8> {
    seq![100u8, 101u8, 108u8, 101u8, 103u8, 97u8, 116u8, 105u8, 111u8, 110u8]
}

/// Seeds of the identity record owned by `owner`.
pub open spec fn elit_seeds(owner: Seq<u8>) -> Seq<Seq<u8>> {
    seq![elit_tag(), owner]
}

/// Seeds of the delegation from the identity at `elit` to `delegate`.
pub open spec fn delegation_seeds(elit: Seq<u8>, delegate: Seq<u8>) -> Seq<Seq<u8>> {
    seq![delegation_tag(), elit, delegate]
}

/// Seeds followed by the one-byte bump seed.
pub open spec fn with_bump(seeds: Seq<Seq<u8>>, bump: u8) -> Seq<Seq<u8>> {
    seeds.push(seq![bump])
}

/// The address and bump found for `seeds` under `program`, if any bump works.
pub uninterp spec fn found_program_address(seeds: Seq<Seq<u8>>, program: Seq<u8>) -> Option<(Seq<u8>, u8)>;

/// The address that `seeds` (bump included) produce under `program`, if they
/// produce a valid one.
pub uninterp spec fn program_address(seeds: Seq<Seq<u8>>, program: Seq<u8>) -> Option<Seq<u8>>;

/// Relies on `Pubkey::try_find_program_address`: it tries bumps from 255 down
/// and returns the first `(address, bump)` for which
/// `Pubkey::create_program_address(seeds ++ [[bump]])` returns `Ok(address)`.
#[verifier::external_body]
fn try_find_address(seeds: &Vec<Vec<u8>>, program: &Key) -> (r: Option<(Key, u8)>)
    ensures
        match r {
            Some((a, b)) => found_program_address(seeds.deep_view(), program@) == Some((a@, b))
                && program_address(with_bump(seeds.deep_view(), b), program@) == Some(a@),
            None => found_program_address(seeds.deep_view(), program@) is None,
        },
{
    let parts: Vec<&[u8]> = seeds.iter().map(|s| s.as_slice()).collect();
    Pubkey::try_find_program_address(&parts, &Pubkey::new_from_array(program.bytes)).map(
        |(a, b)| (Key { bytes: a.to_bytes() }, b),
    )
}

/// Relies on `Pubkey::create_program_address`: the address that the seeds
/// produce, or an error (seeds too long, or a point on the curve).
#[verifier::external_body]
fn create_address(seeds: &Vec<Vec<u8>>, program: &Key) -> (r: Option<Key>)
    ensures
        match r {
            Some(a) => program_address(seeds.deep_view(), program@) == Some(a@),
            None => program_address(seeds.deep_view(), program@) is None,
        },
{
    let parts: Vec<&[u8]> = seeds.iter().map(|s| s.as_slice()).collect();
    Pubkey::create_program_address(&parts, &Pubkey::new_from_array(program.bytes)).ok().map(
        |a| Key { bytes: a.to_bytes() },
    )
}

fn elit_seeds_vec(owner: &Key) -> (r: Vec<Vec<u8>>)
    ensures
        r.deep_view() == elit_seeds(owner@),
{
    let tag: Vec<u8> = vec![101u8, 108u8, 105u8, 116u8];
    let mut r: Vec<Vec<u8>> = Vec::new();
    r.push(tag);
    r.push(owner.to_vec());
    assert(r.deep_view()[0] =~= elit_tag());
    assert(r.deep_view()[1] =~= owner@);
    assert(r.deep_view() =~= elit_seeds(owner@));
    r
}

fn delegation_seeds_vec(elit: &Key, delegate: &Key) -> (r: Vec<Vec<u8>>)
    ensures
        r.deep_view() == delegation_seeds(elit@, delegate@),
{
    let tag: Vec<u8> = vec![100u8, 101u8, 108u8, 101u8, 103u8, 97u8, 116u8, 105u8, 111u8, 110u8];
    let mut r: Vec<Vec<u8>> = Vec::new();
    r.push(tag);
    r.push(elit.to_vec());
    r.push(delegate.to_vec());
    assert(r.deep_view()[0] =~= delegation_tag());
    assert(r.deep_view()[1] =~= elit@);
    assert(r.deep_view()[2] =~= delegate@);
    assert(r.deep_view() =~= delegation_seeds(elit@, delegate@));
    r
}

fn push_bump(seeds: &mut Vec<Vec<u8>>, bump: u8)
    ensures
        final(seeds).deep_view() == with_bump(old(seeds).deep_view(), bump),
{
    let b: Vec<u8> = vec![bump];
    seeds.push(b);
    assert(final(seeds).deep_view()[old(seeds).deep_view().len() as int] =~= seq![bump]);
    assert(final(seeds).deep_view() =~= with_bump(old(seeds).deep_view(), bump));
}

/// Derives the address of the identity record owned by `owner`.
pub fn find_elit_address(program: &Key, owner: &Key) -> (r: Option<(Key, u8)>)
    ensures
        match r {
            Some((a, b)) => found_program_address(elit_seeds(owner@), program@) == Some((a@, b))
                && program_address(with_bump(elit_seeds(owner@), b), program@) == Some(a@),
            None => found_program_address(elit_seeds(owner@), program@) is None,
        },
{
    let seeds = elit_seeds_vec(owner);
    try_find_address(&seeds, program)
}

/// Derives the address of the delegation from the identity at `elit` to
/// `delegate`.
pub fn find_delegation_address(program: &Key, elit: &Key, delegate: &Key) -> (r: Option<(Key, u8)>)
    ensures
        match r {
            Some((a, b)) => found_program_address(delegation_seeds(elit@, delegate@), program@)
                == Some((a@, b)) && program_address(
                with_bump(delegation_seeds(elit@, delegate@), b),
                program@,
            ) == Some(a@),
            None => found_program_address(delegation_seeds(elit@, delegate@), program@) is None,
        },
{
    let seeds = delegation_seeds_vec(elit, delegate);
    try_find_address(&seeds, program)
}

/// Whether an identity record of `owner` with `bump` belongs at `address`.
pub fn elit_address_matches(program: &Key, owner: &Key, bump: u8, address: &Key) -> (r: bool)
    ensures
        r == (program_address(with_bump(elit_seeds(owner@), bump), program@) == Some(address@)),
{
    let mut seeds = elit_seeds_vec(owner);
    push_bump(&mut seeds, bump);
    match create_address(&seeds, program) {
        Some(a) => a.same(address),
        None => false,
    }
}

/// Whether a delegation record from `elit` to `delegate` with `bump` belongs
/// at `address`.
pub fn delegation_address_matches(
    program: &Key,
    elit: &Key,
    delegate: &Key,
    bump: u8,
    address: &Key,
) -> (r: bool)
    ensures
        r == (program_address(with_bump(delegation_seeds(elit@, delegate@), bump), program@)
            == Some(address@)),
{
    let mut seeds = delegation_seeds_vec(elit, delegate);
    push_bump(&mut seeds, bump);
    match create_address(&seeds, program) {
        Some(a) => a.same(address),
        None => false,
    }
}

} // verus!
