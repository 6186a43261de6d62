//! Structured events that mutating operations hand back for emission.
//!
//! Each event carries the literal post-state values a downstream indexer
//! needs; the host that embeds the engine is responsible for publishing them.

use vstd::prelude::*;
use crate::account_id::AccountId;

verus! {

/// One executed trade, with its actual (possibly capped) amounts and the
/// virtual reserves after the commit.
#[derive(Clone, Copy, Debug, PartialEq, Eq, Structural)]
pub struct TradeEvent {
    pub mint: AccountId,
    pub trader: AccountId,
    pub is_buy: bool,
    /// Settlement amount of the trade: the gross input of a buy, the net
    /// payout of a sell.
    pub sol_amount: u64,
    /// Token amount actually moved.
    pub token_amount: u64,
    pub protocol_fee: u64,
    pub creator_fee: u64,
    pub virtual_sol_reserves: u64,
    pub virtual_token_reserves: u64,
    pub timestamp: i64,
}

/// A curve was created for a new token.
#[derive(Debug, PartialEq, Eq)]
pub struct TokenCreatedEvent {
    pub mint: AccountId,
    pub creator: AccountId,
    pub name: String,
    pub symbol: String,
    pub uri: String,
    pub timestamp: i64,
}

/// A curve crossed into its graduated state.
#[derive(Clone, Copy, Debug, PartialEq, Eq, Structural)]
pub struct GraduationEvent {
    pub mint: AccountId,
    /// Real settlement reserves at the moment of graduation.
    pub sol_raised: u64,
    pub timestamp: i64,
}

/// A graduated curve's remaining assets were released to a migration target.
#[derive(Clone, Copy, Debug, PartialEq, Eq, Structural)]
pub struct MigrationReleasedEvent {
    pub mint: AccountId,
    /// Settlement amount moved to the target.
    pub sol_amount: u64,
    /// Token amount moved to the target.
    pub token_amount: u64,
    pub migration_wallet: AccountId,
    pub timestamp: i64,
}

} // verus!
