//! Constant-product bonding-curve market maker.
//!
//! A curve prices a token against a settlement currency ("SOL") with the
//! invariant `virtual_sol_reserves * virtual_token_reserves == k`. Buys and
//! sells trade against the virtual reserves while the real reserves track the
//! settleable balances. Once the real settlement reserves cross
//! [`GRADUATION_THRESHOLD`] the curve graduates, and its remaining assets can
//! be released once to an external migration target.
//!
//! This crate holds the pricing and state-transition engine: exact integer
//! arithmetic, fee splitting, graduation detection and the migration state
//! machine. Asset custody and transfer execution are left to the host that
//! embeds the engine; every operation here returns the amounts the host must
//! move, and either fully commits the ledger or leaves it untouched.

use vstd::prelude::*;

pub mod account_id;
pub mod errors;
pub mod events;
pub mod fees;
pub mod init;
pub mod laws;
pub mod math;
pub mod migrate;
pub mod state;
pub mod trade;

pub use account_id::AccountId;
pub use errors::ClawdVaultError;
pub use events::{GraduationEvent, MigrationReleasedEvent, TokenCreatedEvent, TradeEvent};
pub use fees::{split, FeeSplit};
pub use init::{create_token, initialize, CreateOutcome};
pub use migrate::{force_graduate, release_for_migration, MigrationOutcome};
pub use state::{BondingCurve, Config, LifecycleState};
pub use trade::{buy, sell, TradeOutcome};

verus! {

/// Total token supply minted to a curve's vault at creation
/// (one billion whole tokens at six decimals).
pub const TOTAL_SUPPLY: u64 = 1_000_000_000_000_000;

/// Initial virtual settlement reserves (30 SOL in lamports); sets the opening price.
pub const INITIAL_VIRTUAL_SOL: u64 = 30_000_000_000;

/// Initial virtual token reserves; matches the total supply.
pub const INITIAL_VIRTUAL_TOKENS: u64 = TOTAL_SUPPLY;

/// Real settlement reserves at which a curve graduates (120 SOL in lamports).
pub const GRADUATION_THRESHOLD: u64 = 120_000_000_000;

/// Protocol fee rate in basis points (0.5%).
pub const PROTOCOL_FEE_BPS: u64 = 50;

/// Creator fee rate in basis points (0.5%).
pub const CREATOR_FEE_BPS: u64 = 50;

/// Total fee rate in basis points (1%).
pub const TOTAL_FEE_BPS: u64 = 100;

/// Denominator for basis-point rates.
pub const BPS_DENOMINATOR: u64 = 10_000;

} // verus!
