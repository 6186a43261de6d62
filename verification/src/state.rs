//! Ledger state: the per-token bonding curve and the protocol registry.

use vstd::prelude::*;
use crate::account_id::AccountId;
use crate::GRADUATION_THRESHOLD;

verus! {

/// Protocol-wide configuration and counters. Created once by
/// [`crate::initialize`]; its counters grow monotonically.
#[derive(Clone, Copy, Debug, PartialEq, Eq, Structural)]
pub struct Config {
    /// Identity permitted to trigger privileged operations.
    pub authority: AccountId,
    /// Identity receiving the protocol-fee share of every trade.
    pub fee_recipient: AccountId,
    /// How many curves have been created under this registry.
    pub total_tokens_created: u64,
    /// Cumulative settlement-currency volume counter.
    pub total_volume_sol: u64,
    /// Address-derivation bump of the registry's account, kept for the host.
    pub bump: u8,
}

/// Bonding-curve state for one token.
///
/// The virtual reserves exist only to price trades; the real reserves are the
/// settleable balances the curve actually holds. `graduated` and
/// `migrated_to_raydium` encode the one-way lifecycle
/// Active -> Graduated -> Migrated.
#[derive(Clone, Copy, Debug, PartialEq, Eq, Structural)]
pub struct BondingCurve {
    /// Originator of the curve; immutable after creation.
    pub creator: AccountId,
    /// The token this curve prices; immutable after creation.
    pub mint: AccountId,
    /// Virtual settlement reserves (pricing only).
    pub virtual_sol_reserves: u64,
    /// Virtual token reserves (pricing only).
    pub virtual_token_reserves: u64,
    /// Settlement currency actually held by the curve.
    pub real_sol_reserves: u64,
    /// Token supply still held by the curve.
    pub real_token_reserves: u64,
    /// Supply minted at creation; immutable.
    pub token_total_supply: u64,
    /// Whether the curve has crossed the graduation threshold.
    pub graduated: bool,
    /// Whether the one-time migration release has happened.
    pub migrated_to_raydium: bool,
    /// Creation timestamp; immutable.
    pub created_at: i64,
    /// Address-derivation bump of the curve's account, kept for the host.
    pub bump: u8,
    /// Address-derivation bump of the curve's settlement vault.
    pub sol_vault_bump: u8,
}

/// Where a curve stands in its one-way life.
#[derive(Clone, Copy, Debug, PartialEq, Eq, Structural)]
pub enum LifecycleState {
    /// Trading is open.
    Active,
    /// The threshold was crossed; trading is closed, release is pending.
    Graduated,
    /// The one-time release has happened.
    Migrated,
}

impl BondingCurve {
    /// The two lifecycle flags read as one state.
    pub open spec fn lifecycle_state(self) -> LifecycleState {
        if self.migrated_to_raydium {
            LifecycleState::Migrated
        } else if self.graduated {
            LifecycleState::Graduated
        } else {
            LifecycleState::Active
        }
    }

    /// The constant-product invariant of the virtual reserves.
    pub open spec fn k(self) -> int {
        self.virtual_sol_reserves * self.virtual_token_reserves
    }

    /// Structural well-formedness: a migrated curve has graduated, and a
    /// still-active curve sits below the graduation threshold.
    pub open spec fn wf(self) -> bool {
        &&& self.migrated_to_raydium ==> self.graduated
        &&& !self.graduated ==> self.real_sol_reserves < GRADUATION_THRESHOLD
    }

    /// Read accessor for the current lifecycle, for hosts and tests.
    pub fn lifecycle(&self) -> (s: LifecycleState)
        ensures
            s == self.lifecycle_state(),
    {
        if self.migrated_to_raydium {
            LifecycleState::Migrated
        } else if self.graduated {
            LifecycleState::Graduated
        } else {
            LifecycleState::Active
        }
    }
}

/// Numeric order of lifecycle states: a curve only ever moves up.
pub open spec fn lifecycle_rank(s: LifecycleState) -> int {
    match s {
        LifecycleState::Active => 0,
        LifecycleState::Graduated => 1,
        LifecycleState::Migrated => 2,
    }
}

} // verus!
