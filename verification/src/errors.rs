//! Error taxonomy of the curve engine.
//!
//! Every operation fails with a specific kind before any ledger change, so a
//! caller can act on the reason (raise slippage tolerance, wait for
//! graduation, and so on).

use vstd::prelude::*;

verus! {

/// Why an operation on a curve or on the protocol registry was rejected.
#[derive(Clone, Copy, Debug, PartialEq, Eq, Structural)]
pub enum ClawdVaultError {
    /// An arithmetic step would overflow its numeric range.
    MathOverflow,
    /// The computed output violates the caller's minimum-output guarantee.
    SlippageExceeded,
    /// A trade was attempted on a curve no longer in its active state.
    AlreadyGraduated,
    /// A second migration release was attempted.
    AlreadyMigrated,
    /// A migration release was attempted before graduation.
    NotGraduated,
    /// The requested output exceeds the real reserves available.
    InsufficientLiquidity,
    /// A trade was submitted with a zero input amount.
    ZeroAmount,
    /// A token name longer than 32 characters.
    NameTooLong,
    /// A token symbol longer than 10 characters.
    SymbolTooLong,
    /// A token URI longer than 200 characters.
    UriTooLong,
    /// The caller is not the identity the operation requires.
    Unauthorized,
}

} // verus!
