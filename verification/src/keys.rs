//! Identities of wallets and accounts.
//!
//! The store addresses every entity by a 32-byte key.  The rules only ever
//! compare keys for equality and mix their bytes into loot hashes, so the
//! library carries a key as its four little-endian 64-bit words.

use vstd::prelude::*;

verus! {

/// A 32-byte account key, split into four 64-bit words.
///
/// Word `w0` holds the first eight bytes of the key in little-endian order,
/// `w1` the next eight, and so on.
#[derive(Clone, Copy, Debug, PartialEq, Eq, Structural)]
pub struct AccountId {
    pub w0: u64,
    pub w1: u64,
    pub w2: u64,
    pub w3: u64,
}

impl AccountId {
    /// True of the all-zero key, which the store hands out for entities that
    /// have never been written.  The rules use it as the "uninitialized"
    /// marker.
    pub open spec fn is_zeroed_spec(&self) -> bool {
        self.w0 == 0 && self.w1 == 0 && self.w2 == 0 && self.w3 == 0
    }

    /// The all-zero key.
    pub fn zeroed() -> (r: AccountId)
        ensures
            r.is_zeroed_spec(),
    {
        AccountId { w0: 0, w1: 0, w2: 0, w3: 0 }
    }

    /// Whether this is the all-zero key.
    pub fn is_zeroed(&self) -> (r: bool)
        ensures
            r == self.is_zeroed_spec(),
    {
        self.w0 == 0 && self.w1 == 0 && self.w2 == 0 && self.w3 == 0
    }

    /// Builds a key from its four little-endian words.
    pub fn new(w0: u64, w1: u64, w2: u64, w3: u64) -> (r: AccountId)
        ensures
            r == (AccountId { w0, w1, w2, w3 }),
    {
        AccountId { w0, w1, w2, w3 }
    }
}

} // verus!
