//! Graduation and migration: the one-way tail of a curve's life.

use vstd::prelude::*;
use crate::account_id::AccountId;
use crate::errors::ClawdVaultError;
use crate::events::{GraduationEvent, MigrationReleasedEvent};
use crate::state::{lifecycle_rank, BondingCurve, Config};

verus! {

/// What the one-time release moved, and the event recording it.
#[derive(Clone, Copy, Debug, PartialEq, Eq, Structural)]
pub struct MigrationOutcome {
    /// Settlement currency the host moves from the curve's vault to the target.
    pub sol_amount: u64,
    /// Tokens the host moves from the curve's vault to the target.
    pub token_amount: u64,
    /// The migration event to publish.
    pub event: MigrationReleasedEvent,
}

/// Why a migration release fails, or `None` when it succeeds; the conditions
/// are tested in this order.
pub open spec fn release_err(c: BondingCurve, config: Config, caller: AccountId) -> Option<
    ClawdVaultError,
> {
    if caller != config.authority {
        Some(ClawdVaultError::Unauthorized)
    } else if !c.graduated {
        Some(ClawdVaultError::NotGraduated)
    } else if c.migrated_to_raydium {
        Some(ClawdVaultError::AlreadyMigrated)
    } else {
        None
    }
}

/// The curve after its release: marked migrated, both real reserves zeroed.
pub open spec fn released_curve(c: BondingCurve) -> BondingCurve {
    BondingCurve { migrated_to_raydium: true, real_sol_reserves: 0, real_token_reserves: 0, ..c }
}

/// Release a graduated curve's entire remaining real reserves to a
/// caller-chosen migration target. Authority-only, and callable once: a
/// second call fails with `AlreadyMigrated` and moves nothing.
///
/// Succeeds exactly when [`release_err`] is `None`; then the whole real
/// reserves are reported for transfer, both are zeroed, and the curve is
/// marked migrated. On any error the curve is unchanged.
pub fn release_for_migration(
    curve: &mut BondingCurve,
    config: &Config,
    caller: AccountId,
    migration_wallet: AccountId,
    now: i64,
) -> (r: Result<MigrationOutcome, ClawdVaultError>)
    ensures
        match r {
            Ok(out) => {
                &&& release_err(*old(curve), *config, caller) is None
                &&& *final(curve) == released_curve(*old(curve))
                &&& out.sol_amount == old(curve).real_sol_reserves
                &&& out.token_amount == old(curve).real_token_reserves
                &&& out.event == (MigrationReleasedEvent {
                    mint: old(curve).mint,
                    sol_amount: out.sol_amount,
                    token_amount: out.token_amount,
                    migration_wallet,
                    timestamp: now,
                })
            },
            Err(e) => {
                &&& release_err(*old(curve), *config, caller) == Some(e)
                &&& *final(curve) == *old(curve)
            },
        },
        old(curve).wf() ==> final(curve).wf(),
        lifecycle_rank(final(curve).lifecycle_state()) >= lifecycle_rank(
            old(curve).lifecycle_state(),
        ),
{
    if !(caller == config.authority) {
        return Err(ClawdVaultError::Unauthorized);
    }
    if !curve.graduated {
        return Err(ClawdVaultError::NotGraduated);
    }
    if curve.migrated_to_raydium {
        return Err(ClawdVaultError::AlreadyMigrated);
    }
    let sol_amount: u64 = curve.real_sol_reserves;
    let token_amount: u64 = curve.real_token_reserves;
    curve.migrated_to_raydium = true;
    curve.real_sol_reserves = 0;
    curve.real_token_reserves = 0;
    let event = MigrationReleasedEvent {
        mint: curve.mint,
        sol_amount,
        token_amount,
        migration_wallet,
        timestamp: now,
    };
    Ok(MigrationOutcome { sol_amount, token_amount, event })
}

/// Why a forced graduation fails, or `None` when it succeeds.
pub open spec fn force_graduate_err(c: BondingCurve, config: Config, caller: AccountId) -> Option<
    ClawdVaultError,
> {
    if caller != config.authority {
        Some(ClawdVaultError::Unauthorized)
    } else if c.graduated {
        Some(ClawdVaultError::AlreadyGraduated)
    } else {
        None
    }
}

/// Administrative override: graduate a curve without crossing the threshold.
///
/// This bypasses the normal, buy-triggered transition and exists for the
/// authority alone; it shares no path with trader-triggered graduation.
/// Succeeds exactly when [`force_graduate_err`] is `None`; then only the
/// graduated flag flips, and the event records the settlement reserves at
/// that moment. On any error the curve is unchanged.
pub fn force_graduate(
    curve: &mut BondingCurve,
    config: &Config,
    caller: AccountId,
    now: i64,
) -> (r: Result<GraduationEvent, ClawdVaultError>)
    ensures
        match r {
            Ok(ev) => {
                &&& force_graduate_err(*old(curve), *config, caller) is None
                &&& *final(curve) == (BondingCurve { graduated: true, ..*old(curve) })
                &&& ev == (GraduationEvent {
                    mint: old(curve).mint,
                    sol_raised: old(curve).real_sol_reserves,
                    timestamp: now,
                })
            },
            Err(e) => {
                &&& force_graduate_err(*old(curve), *config, caller) == Some(e)
                &&& *final(curve) == *old(curve)
            },
        },
        old(curve).wf() ==> final(curve).wf(),
        lifecycle_rank(final(curve).lifecycle_state()) >= lifecycle_rank(
            old(curve).lifecycle_state(),
        ),
{
    if !(caller == config.authority) {
        return Err(ClawdVaultError::Unauthorized);
    }
    if curve.graduated {
        return Err(ClawdVaultError::AlreadyGraduated);
    }
    curve.graduated = true;
    Ok(
        GraduationEvent {
            mint: curve.mint,
            sol_raised: curve.real_sol_reserves,
            timestamp: now,
        },
    )
}

} // verus!
