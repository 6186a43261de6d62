//! Identities of accounts (creators, mints, authorities, wallets).
//!
//! The engine never inspects an identity beyond comparing it for equality, so
//! one is modelled as a 256-bit value held as four 64-bit words. A host that
//! addresses accounts by 32-byte public keys converts byte-wise.

use vstd::prelude::*;

verus! {

/// A 256-bit account identity, as four little-endian 64-bit words.
#[derive(Clone, Copy, Debug, PartialEq, Eq, Structural)]
pub struct AccountId {
    pub w0: u64,
    pub w1: u64,
    pub w2: u64,
    pub w3: u64,
}

impl AccountId {
    /// Build an identity from its four words.
    pub fn new(w0: u64, w1: u64, w2: u64, w3: u64) -> (r: AccountId)
        ensures
            r == (AccountId { w0, w1, w2, w3 }),
    {
        AccountId { w0, w1, w2, w3 }
    }
}

} // verus!
