//! Trade orchestration: buy and sell against a bonding curve.
//!
//! Each operation validates, prices through the invariant solver, splits
//! fees, and either commits the whole ledger update and returns the amounts
//! the host must move, or returns an error with the ledger untouched.

use vstd::prelude::*;
use vstd::arithmetic::div_mod::{
    lemma_div_is_ordered,
    lemma_div_is_ordered_by_denominator,
    lemma_div_multiples_vanish,
    lemma_div_pos_is_pos,
};
use crate::{BPS_DENOMINATOR, GRADUATION_THRESHOLD, PROTOCOL_FEE_BPS, TOTAL_FEE_BPS};
use crate::account_id::AccountId;
use crate::errors::ClawdVaultError;
use crate::events::{GraduationEvent, TradeEvent};
use crate::fees;
use crate::fees::{fee_amount, split_ok};
use crate::math;
use crate::math::{swap_amount_out, swap_new_v_out, swap_ok};
use crate::state::{lifecycle_rank, BondingCurve};

verus! {

/// What one trade moved: the host performs exactly these transfers.
///
/// For a buy: `sol_gross` is taken from the buyer, split into `sol_net` to
/// the curve's vault plus the two fees, and `token_amount` goes to the buyer.
/// For a sell: `token_amount` is taken from the seller, and the curve's vault
/// pays `sol_net` to the seller plus the two fees, `sol_gross` in all.
#[derive(Clone, Copy, Debug, PartialEq, Eq, Structural)]
pub struct TradeOutcome {
    /// Token amount actually moved (possibly capped, for a sell).
    pub token_amount: u64,
    /// Gross settlement amount of the trade, the base the fees are taken from.
    pub sol_gross: u64,
    /// Settlement amount net of fees.
    pub sol_net: u64,
    /// Fee share owed to the protocol's fee recipient.
    pub protocol_fee: u64,
    /// Fee share owed to the curve's creator.
    pub creator_fee: u64,
    /// The trade event to publish.
    pub event: TradeEvent,
    /// The graduation event to publish when this trade crossed the
    /// threshold — only a buy ever does, and only at the one crossing;
    /// `None` otherwise.
    pub graduation: Option<GraduationEvent>,
}

/// Tokens a buy of `sol_amount` releases, before liquidity checks.
pub open spec fn buy_tokens_out(c: BondingCurve, sol_amount: u64) -> int {
    swap_amount_out(c.virtual_sol_reserves, c.virtual_token_reserves, sol_amount)
}

/// Total fee of a buy: a truncating 1% of the gross input.
pub open spec fn buy_total_fee(sol_amount: u64) -> int {
    fee_amount(sol_amount, TOTAL_FEE_BPS, BPS_DENOMINATOR)
}

/// Protocol share of a buy's fee.
pub open spec fn buy_protocol_fee(sol_amount: u64) -> int {
    fee_amount(sol_amount, PROTOCOL_FEE_BPS, BPS_DENOMINATOR)
}

/// Whether a buy of `sol_amount` crosses the graduation threshold: the
/// curve was active before and is graduated after.
pub open spec fn buy_graduates(c: BondingCurve, sol_amount: u64) -> bool {
    !c.graduated && buy_next(c, sol_amount).graduated
}

/// Why a buy fails, or `None` when it succeeds; the conditions are tested in
/// this order.
pub open spec fn buy_err(c: BondingCurve, sol_amount: u64, min_tokens_out: u64) -> Option<
    ClawdVaultError,
> {
    if sol_amount == 0 {
        Some(ClawdVaultError::ZeroAmount)
    } else if c.graduated {
        Some(ClawdVaultError::AlreadyGraduated)
    } else if !swap_ok(c.virtual_sol_reserves, c.virtual_token_reserves, sol_amount) {
        Some(ClawdVaultError::MathOverflow)
    } else if buy_tokens_out(c, sol_amount) < min_tokens_out {
        Some(ClawdVaultError::SlippageExceeded)
    } else if buy_tokens_out(c, sol_amount) > c.real_token_reserves {
        Some(ClawdVaultError::InsufficientLiquidity)
    } else if !split_ok(sol_amount, PROTOCOL_FEE_BPS, TOTAL_FEE_BPS, BPS_DENOMINATOR) {
        Some(ClawdVaultError::MathOverflow)
    } else if c.real_sol_reserves + (sol_amount - buy_total_fee(sol_amount)) > u64::MAX {
        Some(ClawdVaultError::MathOverflow)
    } else {
        None
    }
}

/// The curve after a successful buy of `sol_amount`.
///
/// The virtual settlement side grows by the full, pre-fee input — fees are
/// taken from the trade, not added to pricing — while the real side grows
/// only by the net deposit. Crossing the graduation threshold flips the
/// lifecycle flag.
pub open spec fn buy_next(c: BondingCurve, sol_amount: u64) -> BondingCurve {
    let new_real_sol = (c.real_sol_reserves + (sol_amount - buy_total_fee(sol_amount))) as u64;
    BondingCurve {
        virtual_sol_reserves: (c.virtual_sol_reserves + sol_amount) as u64,
        virtual_token_reserves: swap_new_v_out(
            c.virtual_sol_reserves,
            c.virtual_token_reserves,
            sol_amount,
        ) as u64,
        real_sol_reserves: new_real_sol,
        real_token_reserves: (c.real_token_reserves - buy_tokens_out(c, sol_amount)) as u64,
        graduated: c.graduated || new_real_sol >= GRADUATION_THRESHOLD,
        ..c
    }
}

/// Buy tokens from the curve for `sol_amount` of the settlement currency.
///
/// Succeeds exactly when [`buy_err`] is `None`; then the curve commits to
/// [`buy_next`] and the outcome lists the transfers the host must make: the
/// net deposit to the curve's vault, the two fee payments, and the tokens to
/// the buyer, which together account for the whole input. A buy that pushes
/// the real settlement reserves across the graduation threshold flips the
/// lifecycle flag and carries the graduation event to publish — exactly at
/// that one crossing, never again. On any error the curve is unchanged. The
/// lifecycle never moves backwards, and a well-formed curve stays
/// well-formed.
pub fn buy(
    curve: &mut BondingCurve,
    trader: AccountId,
    sol_amount: u64,
    min_tokens_out: u64,
    now: i64,
) -> (r: Result<TradeOutcome, ClawdVaultError>)
    ensures
        match r {
            Ok(out) => {
                &&& buy_err(*old(curve), sol_amount, min_tokens_out) is None
                &&& *final(curve) == buy_next(*old(curve), sol_amount)
                &&& out.token_amount == buy_tokens_out(*old(curve), sol_amount)
                &&& out.sol_gross == sol_amount
                &&& out.protocol_fee == buy_protocol_fee(sol_amount)
                &&& out.creator_fee == buy_total_fee(sol_amount) - buy_protocol_fee(sol_amount)
                &&& out.sol_net == sol_amount - buy_total_fee(sol_amount)
                &&& out.sol_net + out.protocol_fee + out.creator_fee == sol_amount
                &&& out.event == (TradeEvent {
                    mint: old(curve).mint,
                    trader,
                    is_buy: true,
                    sol_amount,
                    token_amount: out.token_amount,
                    protocol_fee: out.protocol_fee,
                    creator_fee: out.creator_fee,
                    virtual_sol_reserves: final(curve).virtual_sol_reserves,
                    virtual_token_reserves: final(curve).virtual_token_reserves,
                    timestamp: now,
                })
                &&& out.graduation == (if buy_graduates(*old(curve), sol_amount) {
                    Some(
                        GraduationEvent {
                            mint: old(curve).mint,
                            sol_raised: final(curve).real_sol_reserves,
                            timestamp: now,
                        },
                    )
                } else {
                    Option::<GraduationEvent>::None
                })
            },
            Err(e) => {
                &&& buy_err(*old(curve), sol_amount, min_tokens_out) == Some(e)
                &&& *final(curve) == *old(curve)
            },
        },
        old(curve).wf() ==> final(curve).wf(),
        lifecycle_rank(final(curve).lifecycle_state()) >= lifecycle_rank(
            old(curve).lifecycle_state(),
        ),
{
    if sol_amount == 0 {
        return Err(ClawdVaultError::ZeroAmount);
    }
    if curve.graduated {
        return Err(ClawdVaultError::AlreadyGraduated);
    }
    let q = match math::swap_quote(
        curve.virtual_sol_reserves,
        curve.virtual_token_reserves,
        sol_amount,
    ) {
        Ok(q) => q,
        Err(e) => {
            return Err(e);
        },
    };
    if q.amount_out < min_tokens_out {
        return Err(ClawdVaultError::SlippageExceeded);
    }
    if q.amount_out > curve.real_token_reserves {
        return Err(ClawdVaultError::InsufficientLiquidity);
    }
    let f = match fees::split(sol_amount, PROTOCOL_FEE_BPS, TOTAL_FEE_BPS, BPS_DENOMINATOR) {
        Ok(f) => f,
        Err(e) => {
            return Err(e);
        },
    };
    proof {
        lemma_total_fee_le_gross(sol_amount);
    }
    let sol_to_curve: u64 = sol_amount - f.total_fee;
    let new_real_sol: u64 = match curve.real_sol_reserves.checked_add(sol_to_curve) {
        Some(s) => s,
        None => {
            return Err(ClawdVaultError::MathOverflow);
        },
    };
    curve.virtual_sol_reserves = q.new_v_in;
    curve.virtual_token_reserves = q.new_v_out;
    curve.real_sol_reserves = new_real_sol;
    curve.real_token_reserves = curve.real_token_reserves - q.amount_out;
    let mut graduation: Option<GraduationEvent> = None;
    if curve.real_sol_reserves >= GRADUATION_THRESHOLD {
        curve.graduated = true;
        graduation = Some(
            GraduationEvent {
                mint: curve.mint,
                sol_raised: curve.real_sol_reserves,
                timestamp: now,
            },
        );
    }
    let event = TradeEvent {
        mint: curve.mint,
        trader,
        is_buy: true,
        sol_amount,
        token_amount: q.amount_out,
        protocol_fee: f.protocol_fee,
        creator_fee: f.creator_fee,
        virtual_sol_reserves: curve.virtual_sol_reserves,
        virtual_token_reserves: curve.virtual_token_reserves,
        timestamp: now,
    };
    Ok(
        TradeOutcome {
            token_amount: q.amount_out,
            sol_gross: sol_amount,
            sol_net: sol_to_curve,
            protocol_fee: f.protocol_fee,
            creator_fee: f.creator_fee,
            event,
            graduation,
        },
    )
}

/// Settlement a sell of `token_amount` asks for, before the liquidity cap.
pub open spec fn sell_requested_sol_out(c: BondingCurve, token_amount: u64) -> int {
    swap_amount_out(c.virtual_token_reserves, c.virtual_sol_reserves, token_amount)
}

/// Whether the requested settlement output exceeds the curve's real
/// reserves, so the sell settles capped.
pub open spec fn sell_is_capped(c: BondingCurve, token_amount: u64) -> bool {
    sell_requested_sol_out(c, token_amount) > c.real_sol_reserves
}

/// Gross settlement a sell actually pays out: the requested output, capped
/// at the real reserves.
pub open spec fn sell_gross(c: BondingCurve, token_amount: u64) -> int {
    if sell_is_capped(c, token_amount) {
        c.real_sol_reserves as int
    } else {
        sell_requested_sol_out(c, token_amount)
    }
}

/// Tokens actually pulled from the seller: the requested amount, or the
/// back-solved maximum consistent with the capped output.
pub open spec fn sell_actual_in(c: BondingCurve, token_amount: u64) -> int {
    if sell_is_capped(c, token_amount) {
        math::inverse_amount_in(
            c.virtual_token_reserves,
            c.virtual_sol_reserves,
            c.real_sol_reserves,
        )
    } else {
        token_amount as int
    }
}

/// Total fee of a sell: a truncating 1% of the gross output.
pub open spec fn sell_total_fee(c: BondingCurve, token_amount: u64) -> int {
    fee_amount(sell_gross(c, token_amount) as u64, TOTAL_FEE_BPS, BPS_DENOMINATOR)
}

/// Protocol share of a sell's fee.
pub open spec fn sell_protocol_fee(c: BondingCurve, token_amount: u64) -> int {
    fee_amount(sell_gross(c, token_amount) as u64, PROTOCOL_FEE_BPS, BPS_DENOMINATOR)
}

/// Settlement the seller receives net of fees.
pub open spec fn sell_net_out(c: BondingCurve, token_amount: u64) -> int {
    sell_gross(c, token_amount) - sell_total_fee(c, token_amount)
}

/// Why a sell fails, or `None` when it succeeds; the conditions are tested
/// in this order.
pub open spec fn sell_err(c: BondingCurve, token_amount: u64, min_sol_out: u64) -> Option<
    ClawdVaultError,
> {
    if token_amount == 0 {
        Some(ClawdVaultError::ZeroAmount)
    } else if c.graduated {
        Some(ClawdVaultError::AlreadyGraduated)
    } else if !swap_ok(c.virtual_token_reserves, c.virtual_sol_reserves, token_amount) {
        Some(ClawdVaultError::MathOverflow)
    } else if sell_is_capped(c, token_amount) && !math::inverse_ok(
        c.virtual_token_reserves,
        c.virtual_sol_reserves,
        c.real_sol_reserves,
    ) {
        Some(ClawdVaultError::MathOverflow)
    } else if !split_ok(
        sell_gross(c, token_amount) as u64,
        PROTOCOL_FEE_BPS,
        TOTAL_FEE_BPS,
        BPS_DENOMINATOR,
    ) {
        Some(ClawdVaultError::MathOverflow)
    } else if sell_net_out(c, token_amount) < min_sol_out {
        Some(ClawdVaultError::SlippageExceeded)
    } else if c.virtual_token_reserves + sell_actual_in(c, token_amount) == 0 {
        Some(ClawdVaultError::MathOverflow)
    } else if c.real_token_reserves + sell_actual_in(c, token_amount) > u64::MAX {
        Some(ClawdVaultError::MathOverflow)
    } else {
        None
    }
}

/// The curve after a successful sell of `token_amount` (capped amounts where
/// the cap applies).
///
/// The virtual reserves are recomputed from the pre-trade invariant and the
/// actual token amount taken in, so `k` is preserved up to one floor
/// division on the actual, not the requested, trade.
pub open spec fn sell_next(c: BondingCurve, token_amount: u64) -> BondingCurve {
    let actual = sell_actual_in(c, token_amount);
    let final_vtok = (c.virtual_token_reserves + actual) as u64;
    BondingCurve {
        virtual_sol_reserves: ((c.virtual_token_reserves * c.virtual_sol_reserves) / (
        final_vtok as int)) as u64,
        virtual_token_reserves: final_vtok,
        real_sol_reserves: (c.real_sol_reserves - sell_gross(c, token_amount)) as u64,
        real_token_reserves: (c.real_token_reserves + actual) as u64,
        ..c
    }
}

/// Sell `token_amount` tokens back to the curve.
///
/// Succeeds exactly when [`sell_err`] is `None`; then the curve commits to
/// [`sell_next`] and the outcome lists the transfers the host must make: the
/// actual (possibly capped) token amount from the seller, and three payouts
/// from the curve's vault — net to the seller and the two fees — which sum
/// to the gross output and never exceed what the vault held. A seller can
/// never extract more settlement than the real reserves hold: when the
/// requested output exceeds them the sell settles at the capped output and
/// the back-solved token amount. On any error the curve is unchanged. A sell
/// never graduates a curve, the lifecycle never moves backwards, and a
/// well-formed curve stays well-formed.
pub fn sell(
    curve: &mut BondingCurve,
    trader: AccountId,
    token_amount: u64,
    min_sol_out: u64,
    now: i64,
) -> (r: Result<TradeOutcome, ClawdVaultError>)
    ensures
        match r {
            Ok(out) => {
                &&& sell_err(*old(curve), token_amount, min_sol_out) is None
                &&& *final(curve) == sell_next(*old(curve), token_amount)
                &&& out.token_amount == sell_actual_in(*old(curve), token_amount)
                &&& out.sol_gross == sell_gross(*old(curve), token_amount)
                &&& out.protocol_fee == sell_protocol_fee(*old(curve), token_amount)
                &&& out.creator_fee == sell_total_fee(*old(curve), token_amount)
                    - sell_protocol_fee(*old(curve), token_amount)
                &&& out.sol_net == sell_net_out(*old(curve), token_amount)
                &&& out.sol_net + out.protocol_fee + out.creator_fee == out.sol_gross
                &&& out.sol_gross <= old(curve).real_sol_reserves
                &&& out.event == (TradeEvent {
                    mint: old(curve).mint,
                    trader,
                    is_buy: false,
                    sol_amount: out.sol_net,
                    token_amount: out.token_amount,
                    protocol_fee: out.protocol_fee,
                    creator_fee: out.creator_fee,
                    virtual_sol_reserves: final(curve).virtual_sol_reserves,
                    virtual_token_reserves: final(curve).virtual_token_reserves,
                    timestamp: now,
                })
                &&& out.graduation is None
            },
            Err(e) => {
                &&& sell_err(*old(curve), token_amount, min_sol_out) == Some(e)
                &&& *final(curve) == *old(curve)
            },
        },
        final(curve).graduated == old(curve).graduated,
        old(curve).wf() ==> final(curve).wf(),
        lifecycle_rank(final(curve).lifecycle_state()) >= lifecycle_rank(
            old(curve).lifecycle_state(),
        ),
{
    if token_amount == 0 {
        return Err(ClawdVaultError::ZeroAmount);
    }
    if curve.graduated {
        return Err(ClawdVaultError::AlreadyGraduated);
    }
    let q = match math::swap_quote(
        curve.virtual_token_reserves,
        curve.virtual_sol_reserves,
        token_amount,
    ) {
        Ok(q) => q,
        Err(e) => {
            return Err(e);
        },
    };
    let (sol_gross, actual_token_amount): (u64, u64) = if q.amount_out
        > curve.real_sol_reserves {
        let iq = match math::inverse_quote(
            curve.virtual_token_reserves,
            curve.virtual_sol_reserves,
            curve.real_sol_reserves,
        ) {
            Ok(iq) => iq,
            Err(e) => {
                return Err(e);
            },
        };
        (curve.real_sol_reserves, iq.amount_in)
    } else {
        (q.amount_out, token_amount)
    };
    let f = match fees::split(sol_gross, PROTOCOL_FEE_BPS, TOTAL_FEE_BPS, BPS_DENOMINATOR) {
        Ok(f) => f,
        Err(e) => {
            return Err(e);
        },
    };
    proof {
        lemma_total_fee_le_gross(sol_gross);
    }
    let sol_out_net: u64 = sol_gross - f.total_fee;
    if sol_out_net < min_sol_out {
        return Err(ClawdVaultError::SlippageExceeded);
    }
    let final_virtual_tokens: u64 = match curve.virtual_token_reserves.checked_add(
        actual_token_amount,
    ) {
        Some(v) => v,
        None => {
            return Err(ClawdVaultError::MathOverflow);
        },
    };
    if final_virtual_tokens == 0 {
        return Err(ClawdVaultError::MathOverflow);
    }
    proof {
        assert((curve.virtual_token_reserves as int) * (curve.virtual_sol_reserves as int)
            <= u64::MAX * u64::MAX) by (nonlinear_arith)
            requires
                curve.virtual_token_reserves <= u64::MAX,
                curve.virtual_sol_reserves <= u64::MAX,
        ;
    }
    let k: u128 = (curve.virtual_token_reserves as u128) * (curve.virtual_sol_reserves as u128);
    let final_virtual_sol_wide: u128 = k / (final_virtual_tokens as u128);
    proof {
        if curve.virtual_token_reserves > 0 {
            lemma_div_is_ordered_by_denominator(
                k as int,
                curve.virtual_token_reserves as int,
                final_virtual_tokens as int,
            );
            lemma_div_multiples_vanish(
                curve.virtual_sol_reserves as int,
                curve.virtual_token_reserves as int,
            );
        } else {
            lemma_div_pos_is_pos(0, final_virtual_tokens as int);
        }
    }
    let final_virtual_sol: u64 = final_virtual_sol_wide as u64;
    let new_real_tokens: u64 = match curve.real_token_reserves.checked_add(actual_token_amount) {
        Some(v) => v,
        None => {
            return Err(ClawdVaultError::MathOverflow);
        },
    };
    curve.virtual_sol_reserves = final_virtual_sol;
    curve.virtual_token_reserves = final_virtual_tokens;
    curve.real_sol_reserves = curve.real_sol_reserves - sol_gross;
    curve.real_token_reserves = new_real_tokens;
    let event = TradeEvent {
        mint: curve.mint,
        trader,
        is_buy: false,
        sol_amount: sol_out_net,
        token_amount: actual_token_amount,
        protocol_fee: f.protocol_fee,
        creator_fee: f.creator_fee,
        virtual_sol_reserves: curve.virtual_sol_reserves,
        virtual_token_reserves: curve.virtual_token_reserves,
        timestamp: now,
    };
    Ok(
        TradeOutcome {
            token_amount: actual_token_amount,
            sol_gross,
            sol_net: sol_out_net,
            protocol_fee: f.protocol_fee,
            creator_fee: f.creator_fee,
            event,
            graduation: None,
        },
    )
}

/// A truncating basis-point fee at the configured total rate never exceeds
/// the gross amount it is taken from.
pub proof fn lemma_total_fee_le_gross(gross: u64)
    ensures
        0 <= fee_amount(gross, TOTAL_FEE_BPS, BPS_DENOMINATOR) <= gross,
        0 <= fee_amount(gross, PROTOCOL_FEE_BPS, BPS_DENOMINATOR) <= fee_amount(
            gross,
            TOTAL_FEE_BPS,
            BPS_DENOMINATOR,
        ),
{
    lemma_div_pos_is_pos(gross * TOTAL_FEE_BPS, BPS_DENOMINATOR as int);
    lemma_div_pos_is_pos(gross * PROTOCOL_FEE_BPS, BPS_DENOMINATOR as int);
    lemma_div_is_ordered(
        gross * PROTOCOL_FEE_BPS,
        gross * TOTAL_FEE_BPS,
        BPS_DENOMINATOR as int,
    );
    lemma_div_is_ordered(
        gross * TOTAL_FEE_BPS,
        gross * (BPS_DENOMINATOR as int),
        BPS_DENOMINATOR as int,
    );
    lemma_div_multiples_vanish(gross as int, BPS_DENOMINATOR as int);
}

} // verus!
