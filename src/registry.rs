//! Records, their lifecycle states, and the store that holds them at their
//! derived addresses.

use crate::address::Key;
use vstd::prelude::*;

verus! {

/// Lifecycle of an identity: `Active` until its owner revokes it.
#[derive(Clone, Copy, Debug, PartialEq, Eq, Structural)]
pub enum ElitStatus {
    Active,
    Revoked,
}

/// Why an operation was refused. A refused operation changes nothing.
#[derive(Clone, Copy, Debug, PartialEq, Eq, Structural)]
pub enum ElitError {
    /// The identity has been revoked.
    ElitRevoked,
    /// The signer is not the owner the operation requires.
    Unauthorized,
    /// A record already occupies the target address.
    DuplicateRecord,
    /// No record is stored at the given address.
    NotFound,
    /// A record's address does not re-derive from its seeds and bump, or no
    /// bump yields a valid address.
    InvalidAddress,
    /// A text field exceeds its maximum length in bytes.
    FieldTooLong,
}

pub const MAX_NAME_LEN: usize = 50;

pub const MAX_BIO_LEN: usize = 280;

pub const MAX_PERSONALITY_HASH_LEN: usize = 64;

pub const MAX_AVATAR_URI_LEN: usize = 200;

pub const MAX_SCOPE_LEN: usize = 100;

pub const MAX_RESTRICTIONS_LEN: usize = 200;

/// An identity record.
#[derive(Clone, Debug)]
pub struct ElitAccount {
    pub owner: Key,
    pub name: String,
    pub bio: String,
    pub personality_hash: String,
    pub avatar_uri: String,
    pub created_at: i64,
    pub status: ElitStatus,
    pub bump: u8,
}

/// A delegation record: rights granted by the identity at `elit` to
/// `delegate`.
#[derive(Clone, Debug)]
pub struct DelegationAccount {
    pub elit: Key,
    pub delegate: Key,
    pub scope: String,
    pub expires_at: i64,
    pub restrictions: String,
    pub created_at: i64,
    pub active: bool,
    pub bump: u8,
}

/// An identity record at its address.
#[derive(Clone, Debug)]
pub struct ElitEntry {
    pub address: Key,
    pub account: ElitAccount,
}

/// A delegation record at its address.
#[derive(Clone, Debug)]
pub struct DelegationEntry {
    pub address: Key,
    pub account: DelegationAccount,
}

/// The records of one program, each at its own address.
pub struct Registry {
    pub program_id: Key,
    pub elits: Vec<ElitEntry>,
    pub delegations: Vec<DelegationEntry>,
}

/// Length in bytes of the UTF-8 encoding of `s`.
pub open spec fn byte_len(s: String) -> nat {
    vstd::utf8::encode_utf8(s@).len()
}

impl Registry {
    /// No two records of one kind share an address.
    pub open spec fn wf(&self) -> bool {
        &&& forall|i: int, j: int|
            0 <= i < self.elits@.len() && 0 <= j < self.elits@.len() && i != j
                ==> #[trigger] self.elits@[i].address@ != #[trigger] self.elits@[j].address@
        &&& forall|i: int, j: int|
            0 <= i < self.delegations@.len() && 0 <= j < self.delegations@.len() && i != j
                ==> #[trigger] self.delegations@[i].address@
                != #[trigger] self.delegations@[j].address@
    }

    pub open spec fn has_elit(&self, a: Seq<u8>) -> bool {
        exists|i: int| 0 <= i < self.elits@.len() && #[trigger] self.elits@[i].address@ == a
    }

    /// Position of the identity record at `a` (meaningful when `has_elit(a)`).
    pub open spec fn elit_index(&self, a: Seq<u8>) -> int {
        choose|i: int| 0 <= i < self.elits@.len() && #[trigger] self.elits@[i].address@ == a
    }

    /// The identity record at `a` (meaningful when `has_elit(a)`).
    pub open spec fn elit(&self, a: Seq<u8>) -> ElitAccount {
        self.elits@[self.elit_index(a)].account
    }

    pub open spec fn has_delegation(&self, a: Seq<u8>) -> bool {
        exists|i: int|
            0 <= i < self.delegations@.len() && #[trigger] self.delegations@[i].address@ == a
    }

    /// Position of the delegation record at `a` (meaningful when
    /// `has_delegation(a)`).
    pub open spec fn delegation_index(&self, a: Seq<u8>) -> int {
        choose|i: int|
            0 <= i < self.delegations@.len() && #[trigger] self.delegations@[i].address@ == a
    }

    /// The delegation record at `a` (meaningful when `has_delegation(a)`).
    pub open spec fn delegation(&self, a: Seq<u8>) -> DelegationAccount {
        self.delegations@[self.delegation_index(a)].account
    }

    /// An empty registry for the program `program_id`.
    pub fn new(program_id: Key) -> (r: Registry)
        ensures
            r.wf(),
            r.program_id == program_id,
            r.elits@.len() == 0,
            r.delegations@.len() == 0,
    {
        Registry { program_id, elits: Vec::new(), delegations: Vec::new() }
    }

    /// Whether no two records of one kind share an address; for callers that
    /// assemble a registry from its fields.
    pub fn is_wf(&self) -> (r: bool)
        ensures
            r == self.wf(),
    {
        let n = self.elits.len();
        let mut i: usize = 0;
        while i < n
            invariant
                n == self.elits@.len(),
                0 <= i <= n,
                forall|a: int, b: int|
                    0 <= a < i && 0 <= b < n && a != b ==> #[trigger] self.elits@[a].address@
                        != #[trigger] self.elits@[b].address@,
            decreases n - i,
        {
            let mut j: usize = 0;
            while j < n
                invariant
                    n == self.elits@.len(),
                    0 <= i < n,
                    0 <= j <= n,
                    forall|a: int, b: int|
                        0 <= a < i && 0 <= b < n && a != b ==> #[trigger] self.elits@[a].address@
                            != #[trigger] self.elits@[b].address@,
                    forall|b: int|
                        0 <= b < j && b != i ==> self.elits@[i as int].address@
                            != #[trigger] self.elits@[b].address@,
                decreases n - j,
            {
                if j != i && self.elits[i].address.same(&self.elits[j].address) {
                    return false;
                }
                j = j + 1;
            }
            i = i + 1;
        }
        let m = self.delegations.len();
        let mut i: usize = 0;
        while i < m
            invariant
                m == self.delegations@.len(),
                0 <= i <= m,
                forall|a: int, b: int|
                    0 <= a < i && 0 <= b < m && a != b ==> #[trigger] self.delegations@[a].address@
                        != #[trigger] self.delegations@[b].address@,
                forall|a: int, b: int|
                    0 <= a < self.elits@.len() && 0 <= b < self.elits@.len() && a != b
                        ==> #[trigger] self.elits@[a].address@ != #[trigger] self.elits@[b].address@,
            decreases m - i,
        {
            let mut j: usize = 0;
            while j < m
                invariant
                    m == self.delegations@.len(),
                    0 <= i < m,
                    0 <= j <= m,
                    forall|a: int, b: int|
                        0 <= a < i && 0 <= b < m && a != b
                            ==> #[trigger] self.delegations@[a].address@
                            != #[trigger] self.delegations@[b].address@,
                    forall|b: int|
                        0 <= b < j && b != i ==> self.delegations@[i as int].address@
                            != #[trigger] self.delegations@[b].address@,
                    forall|a: int, b: int|
                        0 <= a < self.elits@.len() && 0 <= b < self.elits@.len() && a != b
                            ==> #[trigger] self.elits@[a].address@
                            != #[trigger] self.elits@[b].address@,
                decreases m - j,
            {
                if j != i && self.delegations[i].address.same(&self.delegations[j].address) {
                    return false;
                }
                j = j + 1;
            }
            i = i + 1;
        }
        true
    }

    /// Position of the identity record at `address`, if there is one.
    pub fn find_elit(&self, address: &Key) -> (r: Option<usize>)
        requires
            self.wf(),
        ensures
            match r {
                Some(i) => self.has_elit(address@) && i as int == self.elit_index(address@),
                None => !self.has_elit(address@),
            },
    {
        let mut i: usize = 0;
        while i < self.elits.len()
            invariant
                0 <= i <= self.elits@.len(),
                self.wf(),
                forall|j: int| 0 <= j < i ==> #[trigger] self.elits@[j].address@ != address@,
            decreases self.elits@.len() - i,
        {
            if self.elits[i].address.same(address) {
                assert(self.has_elit(address@));
                let ghost k = self.elit_index(address@);
                assert(self.elits@[k].address@ == address@);
                assert(self.elits@[i as int].address@ == address@);
                assert(i as int == k);
                return Some(i);
            }
            i = i + 1;
        }
        None
    }

    /// Position of the delegation record at `address`, if there is one.
    pub fn find_delegation(&self, address: &Key) -> (r: Option<usize>)
        requires
            self.wf(),
        ensures
            match r {
                Some(i) => self.has_delegation(address@) && i as int == self.delegation_index(
                    address@,
                ),
                None => !self.has_delegation(address@),
            },
    {
        let mut i: usize = 0;
        while i < self.delegations.len()
            invariant
                0 <= i <= self.delegations@.len(),
                self.wf(),
                forall|j: int|
                    0 <= j < i ==> #[trigger] self.delegations@[j].address@ != address@,
            decreases self.delegations@.len() - i,
        {
            if self.delegations[i].address.same(address) {
                assert(self.has_delegation(address@));
                let ghost k = self.delegation_index(address@);
                assert(self.delegations@[k].address@ == address@);
                assert(self.delegations@[i as int].address@ == address@);
                assert(i as int == k);
                return Some(i);
            }
            i = i + 1;
        }
        None
    }

    /// The identity record at `address`, if there is one.
    pub fn elit_at(&self, address: &Key) -> (r: Option<&ElitAccount>)
        requires
            self.wf(),
        ensures
            match r {
                Some(acct) => self.has_elit(address@) && *acct == self.elit(address@),
                None => !self.has_elit(address@),
            },
    {
        match self.find_elit(address) {
            Some(i) => Some(&self.elits[i].account),
            None => None,
        }
    }

    /// The delegation record at `address`, if there is one.
    pub fn delegation_at(&self, address: &Key) -> (r: Option<&DelegationAccount>)
        requires
            self.wf(),
        ensures
            match r {
                Some(acct) => self.has_delegation(address@) && *acct == self.delegation(
                    address@,
                ),
                None => !self.has_delegation(address@),
            },
    {
        match self.find_delegation(address) {
            Some(i) => Some(&self.delegations[i].account),
            None => None,
        }
    }
}

} // verus!
