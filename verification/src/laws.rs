//! The engine's laws: what holds of every operation and every sequence of
//! operations on a curve, stated and proved over the same spec functions the
//! operations' own contracts use.

use vstd::prelude::*;
use vstd::arithmetic::div_mod::{
    lemma_div_is_ordered_by_denominator,
    lemma_div_multiples_vanish,
    lemma_div_of0,
    lemma_div_pos_is_pos,
    lemma_fundamental_div_mod,
    lemma_mod_division_less_than_divisor,
    lemma_multiply_divide_lt,
};
use vstd::arithmetic::mul::{lemma_mul_is_commutative, lemma_mul_nonnegative};
use crate::account_id::AccountId;
use crate::errors::ClawdVaultError;
use crate::math;
use crate::migrate::{force_graduate_err, release_err, released_curve};
use crate::state::{lifecycle_rank, BondingCurve, Config};
use crate::trade::{
    buy_err, buy_next, buy_protocol_fee, buy_tokens_out, buy_total_fee,
    lemma_total_fee_le_gross, sell_actual_in, sell_err, sell_gross, sell_is_capped, sell_next,
    sell_protocol_fee, sell_requested_sol_out, sell_total_fee,
};
use crate::fees::fee_amount;
use crate::{BPS_DENOMINATOR, TOTAL_FEE_BPS};

verus! {

/// One operation a caller can attempt on a curve.
pub enum Op {
    Buy { sol_amount: u64, min_tokens_out: u64 },
    Sell { token_amount: u64, min_sol_out: u64 },
    Release { caller: AccountId },
    ForceGraduate { caller: AccountId },
}

/// The curve after attempting one operation: the committed state on success,
/// the same state on any error.
pub open spec fn step(c: BondingCurve, config: Config, op: Op) -> BondingCurve {
    match op {
        Op::Buy { sol_amount, min_tokens_out } => if buy_err(c, sol_amount, min_tokens_out)
            is None {
            buy_next(c, sol_amount)
        } else {
            c
        },
        Op::Sell { token_amount, min_sol_out } => if sell_err(c, token_amount, min_sol_out)
            is None {
            sell_next(c, token_amount)
        } else {
            c
        },
        Op::Release { caller } => if release_err(c, config, caller) is None {
            released_curve(c)
        } else {
            c
        },
        Op::ForceGraduate { caller } => if force_graduate_err(c, config, caller) is None {
            BondingCurve { graduated: true, ..c }
        } else {
            c
        },
    }
}

/// The curve after attempting a whole sequence of operations in order.
pub open spec fn run(c: BondingCurve, config: Config, ops: Seq<Op>) -> BondingCurve
    decreases ops.len(),
{
    if ops.len() == 0 {
        c
    } else {
        run(step(c, config, ops[0]), config, ops.subrange(1, ops.len() as int))
    }
}

/// Shape of the state a successful buy commits, with every field in range.
pub proof fn lemma_buy_next_fields(c: BondingCurve, sol_amount: u64, min_tokens_out: u64)
    requires
        buy_err(c, sol_amount, min_tokens_out) is None,
    ensures
        ({
            let c2 = buy_next(c, sol_amount);
            &&& c2.virtual_sol_reserves == c.virtual_sol_reserves + sol_amount
            &&& c2.virtual_token_reserves == (c.virtual_sol_reserves
                * c.virtual_token_reserves) / (c.virtual_sol_reserves + sol_amount)
            &&& 0 <= c2.virtual_token_reserves <= c.virtual_token_reserves
            &&& buy_tokens_out(c, sol_amount) == c.virtual_token_reserves
                - c2.virtual_token_reserves
            &&& 0 <= buy_tokens_out(c, sol_amount) <= c.real_token_reserves
            &&& c2.real_token_reserves == c.real_token_reserves - buy_tokens_out(c, sol_amount)
            &&& c2.real_sol_reserves >= c.real_sol_reserves
            &&& c2.token_total_supply == c.token_total_supply
            &&& c2.migrated_to_raydium == c.migrated_to_raydium
            &&& (c2.graduated == c.graduated || c2.graduated)
        }),
{
    let new_vsol = c.virtual_sol_reserves + sol_amount;
    let k = (c.virtual_sol_reserves as int) * (c.virtual_token_reserves as int);
    if c.virtual_sol_reserves > 0 {
        lemma_div_is_ordered_by_denominator(k, c.virtual_sol_reserves as int, new_vsol);
        lemma_div_multiples_vanish(
            c.virtual_token_reserves as int,
            c.virtual_sol_reserves as int,
        );
    } else {
        lemma_div_pos_is_pos(0, new_vsol);
    }
    lemma_div_pos_is_pos(k, new_vsol);
}

/// Invariant preservation by one buy: the product of the virtual reserves
/// never grows, and shrinks by less than one unit of the grown settlement
/// side — exactly the remainder the floor division discards.
pub proof fn lemma_buy_preserves_invariant(c: BondingCurve, sol_amount: u64, min_tokens_out: u64)
    requires
        buy_err(c, sol_amount, min_tokens_out) is None,
    ensures
        ({
            let c2 = buy_next(c, sol_amount);
            &&& c2.k() <= c.k()
            &&& c.k() - c2.k() == c.k() % (c2.virtual_sol_reserves as int)
            &&& c.k() - c2.k() < c2.virtual_sol_reserves
        }),
{
    lemma_buy_next_fields(c, sol_amount, min_tokens_out);
    let c2 = buy_next(c, sol_amount);
    let k = c.k();
    lemma_fundamental_div_mod(k, c2.virtual_sol_reserves as int);
    lemma_mod_division_less_than_divisor(k, c2.virtual_sol_reserves as int);
    lemma_mul_is_commutative(c2.virtual_sol_reserves as int, c2.virtual_token_reserves as int);
}

/// Shape of the state a successful sell commits, with every field in range:
/// the token amount actually pulled is nonnegative, and the gross payout
/// never exceeds the real settlement reserves.
pub proof fn lemma_sell_next_fields(c: BondingCurve, token_amount: u64, min_sol_out: u64)
    requires
        sell_err(c, token_amount, min_sol_out) is None,
    ensures
        ({
            let c2 = sell_next(c, token_amount);
            let actual = sell_actual_in(c, token_amount);
            &&& 0 <= actual
            &&& c2.virtual_token_reserves == c.virtual_token_reserves + actual
            &&& c2.virtual_token_reserves >= 1
            &&& c2.virtual_sol_reserves == (c.virtual_token_reserves
                * c.virtual_sol_reserves) / (c2.virtual_token_reserves as int)
            &&& 0 <= c2.virtual_sol_reserves <= c.virtual_sol_reserves
            &&& 0 <= sell_gross(c, token_amount) <= c.real_sol_reserves
            &&& c2.real_sol_reserves == c.real_sol_reserves - sell_gross(c, token_amount)
            &&& c2.real_token_reserves == c.real_token_reserves + actual
            &&& c2.token_total_supply == c.token_total_supply
            &&& c2.graduated == c.graduated
            &&& c2.migrated_to_raydium == c.migrated_to_raydium
        }),
{
    let kk = (c.virtual_token_reserves as int) * (c.virtual_sol_reserves as int);
    let vtok = c.virtual_token_reserves as int;
    let vsol = c.virtual_sol_reserves as int;
    if c.virtual_token_reserves == 0 {
        assert(kk == 0) by (nonlinear_arith)
            requires
                vtok == 0,
                kk == vtok * vsol,
        ;
    }
    // The requested output is a nonnegative part of the virtual settlement side.
    if c.virtual_token_reserves > 0 {
        lemma_div_is_ordered_by_denominator(kk, vtok, vtok + token_amount);
        lemma_div_multiples_vanish(vsol, vtok);
    } else {
        lemma_div_of0(vtok + token_amount);
    }
    lemma_div_pos_is_pos(kk, vtok + token_amount);
    if sell_is_capped(c, token_amount) {
        let target = vsol - c.real_sol_reserves;
        // Capped: the cap is below the requested output, which is below the
        // whole virtual settlement side, so the target reserve is positive.
        assert(sell_requested_sol_out(c, token_amount) <= vsol);
        assert(target >= 1);
        lemma_div_is_ordered_by_denominator(kk, target, vsol);
        lemma_mul_is_commutative(vsol, vtok);
        lemma_div_multiples_vanish(vtok, vsol);
        assert(math::inverse_amount_in(
            c.virtual_token_reserves,
            c.virtual_sol_reserves,
            c.real_sol_reserves,
        ) >= 0);
    }
    let actual = sell_actual_in(c, token_amount);
    let c2tok = vtok + actual;
    if c.virtual_token_reserves > 0 {
        lemma_div_is_ordered_by_denominator(kk, vtok, c2tok);
        lemma_div_multiples_vanish(vsol, vtok);
    } else {
        lemma_div_of0(c2tok);
    }
    lemma_div_pos_is_pos(kk, c2tok);
}

/// Invariant preservation by one sell, on the actual — possibly capped —
/// amounts: the product of the virtual reserves never grows, and shrinks by
/// less than one unit of the grown token side.
pub proof fn lemma_sell_preserves_invariant(c: BondingCurve, token_amount: u64, min_sol_out: u64)
    requires
        sell_err(c, token_amount, min_sol_out) is None,
    ensures
        ({
            let c2 = sell_next(c, token_amount);
            &&& c2.k() <= c.k()
            &&& c.k() - c2.k() == c.k() % (c2.virtual_token_reserves as int)
            &&& c.k() - c2.k() < c2.virtual_token_reserves
        }),
{
    lemma_sell_next_fields(c, token_amount, min_sol_out);
    let c2 = sell_next(c, token_amount);
    let kk = (c.virtual_token_reserves as int) * (c.virtual_sol_reserves as int);
    lemma_mul_is_commutative(c.virtual_sol_reserves as int, c.virtual_token_reserves as int);
    lemma_fundamental_div_mod(kk, c2.virtual_token_reserves as int);
    lemma_mod_division_less_than_divisor(kk, c2.virtual_token_reserves as int);
    lemma_mul_is_commutative(c2.virtual_sol_reserves as int, c2.virtual_token_reserves as int);
}

/// Capped sell settlement: when the requested output of a successful sell
/// exceeds the real settlement reserves, the trade pays out exactly those
/// reserves, pulls the token amount back-solved from the invariant at that
/// cap, and that amount is strictly smaller than the requested one — a
/// seller can never extract more settlement than the curve holds, and the
/// curve accepts no more tokens than the capped output justifies.
pub proof fn lemma_sell_capped_settlement(c: BondingCurve, token_amount: u64, min_sol_out: u64)
    requires
        sell_err(c, token_amount, min_sol_out) is None,
        sell_is_capped(c, token_amount),
    ensures
        sell_gross(c, token_amount) == c.real_sol_reserves,
        sell_actual_in(c, token_amount) == (c.virtual_token_reserves
            * c.virtual_sol_reserves) / (c.virtual_sol_reserves - c.real_sol_reserves)
            - c.virtual_token_reserves,
        0 <= sell_actual_in(c, token_amount) < token_amount,
{
    lemma_sell_next_fields(c, token_amount, min_sol_out);
    let vtok = c.virtual_token_reserves as int;
    let vsol = c.virtual_sol_reserves as int;
    let kk = vtok * vsol;
    let q = kk / (vtok + token_amount);
    let target = vsol - c.real_sol_reserves;
    lemma_mul_nonnegative(vtok, vsol);
    // The cap sits below the requested output, so the target reserve
    // strictly exceeds the would-be post-trade settlement side.
    assert(target > q);
    lemma_div_pos_is_pos(kk, vtok + token_amount);
    // kk < (q + 1) * (vtok + token_amount), by the division it defines.
    lemma_fundamental_div_mod(kk, vtok + token_amount);
    lemma_mod_division_less_than_divisor(kk, vtok + token_amount);
    assert((vtok + token_amount) * (q + 1) == (vtok + token_amount) * q + (vtok
        + token_amount)) by (nonlinear_arith);
    lemma_mul_is_commutative(vtok + token_amount, q + 1);
    lemma_multiply_divide_lt(kk, q + 1, vtok + token_amount);
    lemma_div_is_ordered_by_denominator(kk, q + 1, target);
}

/// What every single attempted operation preserves: the product of the
/// virtual reserves never grows, the lifecycle never moves backwards,
/// well-formedness is kept, and the recorded total supply never changes.
pub proof fn lemma_step_properties(c: BondingCurve, config: Config, op: Op)
    ensures
        step(c, config, op).k() <= c.k(),
        lifecycle_rank(step(c, config, op).lifecycle_state()) >= lifecycle_rank(
            c.lifecycle_state(),
        ),
        c.wf() ==> step(c, config, op).wf(),
        step(c, config, op).token_total_supply == c.token_total_supply,
{
    match op {
        Op::Buy { sol_amount, min_tokens_out } => {
            if buy_err(c, sol_amount, min_tokens_out) is None {
                lemma_buy_next_fields(c, sol_amount, min_tokens_out);
                lemma_buy_preserves_invariant(c, sol_amount, min_tokens_out);
            }
        },
        Op::Sell { token_amount, min_sol_out } => {
            if sell_err(c, token_amount, min_sol_out) is None {
                lemma_sell_next_fields(c, token_amount, min_sol_out);
                lemma_sell_preserves_invariant(c, token_amount, min_sol_out);
            }
        },
        Op::Release { caller } => {
        },
        Op::ForceGraduate { caller } => {
        },
    }
}

/// What every sequence of attempted operations preserves: the product of
/// the virtual reserves never grows, the lifecycle never moves backwards —
/// so an advanced state can never be undone — well-formedness is kept, and
/// the recorded total supply never changes.
pub proof fn lemma_run_properties(c: BondingCurve, config: Config, ops: Seq<Op>)
    ensures
        run(c, config, ops).k() <= c.k(),
        lifecycle_rank(run(c, config, ops).lifecycle_state()) >= lifecycle_rank(
            c.lifecycle_state(),
        ),
        c.wf() ==> run(c, config, ops).wf(),
        run(c, config, ops).token_total_supply == c.token_total_supply,
    decreases ops.len(),
{
    if ops.len() > 0 {
        lemma_step_properties(c, config, ops[0]);
        lemma_run_properties(step(c, config, ops[0]), config, ops.subrange(1, ops.len() as int));
    }
}

/// A sequence of trades only: no release and no forced graduation.
pub open spec fn trades_only(ops: Seq<Op>) -> bool {
    forall|i: int| 0 <= i < ops.len() ==> (ops[i] is Buy || ops[i] is Sell)
}

/// Net tokens one attempted operation hands to the trader: what a
/// successful buy pays out, minus what a successful sell pulls in; zero on
/// any rejected trade.
pub open spec fn trade_tokens_delta(c: BondingCurve, op: Op) -> int {
    match op {
        Op::Buy { sol_amount, min_tokens_out } => if buy_err(c, sol_amount, min_tokens_out)
            is None {
            buy_tokens_out(c, sol_amount)
        } else {
            0
        },
        Op::Sell { token_amount, min_sol_out } => if sell_err(c, token_amount, min_sol_out)
            is None {
            -sell_actual_in(c, token_amount)
        } else {
            0
        },
        Op::Release { caller } => 0,
        Op::ForceGraduate { caller } => 0,
    }
}

/// Net tokens a whole sequence of attempted trades hands to traders.
pub open spec fn tokens_to_traders(c: BondingCurve, config: Config, ops: Seq<Op>) -> int
    decreases ops.len(),
{
    if ops.len() == 0 {
        0
    } else {
        trade_tokens_delta(c, ops[0]) + tokens_to_traders(
            step(c, config, ops[0]),
            config,
            ops.subrange(1, ops.len() as int),
        )
    }
}

/// Monotonic supply: after any sequence of buys and sells, the tokens still
/// held by the curve plus the tokens held by traders equal the total supply.
/// `held` is what traders hold at the start; every trade moves tokens
/// between the curve's real reserves and the traders, one for one.
pub proof fn lemma_monotonic_supply(c: BondingCurve, config: Config, ops: Seq<Op>, held: int)
    requires
        trades_only(ops),
        c.real_token_reserves + held == c.token_total_supply,
    ensures
        run(c, config, ops).real_token_reserves + (held + tokens_to_traders(c, config, ops))
            == run(c, config, ops).token_total_supply,
        run(c, config, ops).token_total_supply == c.token_total_supply,
    decreases ops.len(),
{
    if ops.len() > 0 {
        let op = ops[0];
        let rest = ops.subrange(1, ops.len() as int);
        match op {
            Op::Buy { sol_amount, min_tokens_out } => {
                if buy_err(c, sol_amount, min_tokens_out) is None {
                    lemma_buy_next_fields(c, sol_amount, min_tokens_out);
                }
            },
            Op::Sell { token_amount, min_sol_out } => {
                if sell_err(c, token_amount, min_sol_out) is None {
                    lemma_sell_next_fields(c, token_amount, min_sol_out);
                }
            },
            Op::Release { caller } => {
                assert(op is Buy || op is Sell);
            },
            Op::ForceGraduate { caller } => {
                assert(op is Buy || op is Sell);
            },
        }
        assert forall|i: int| 0 <= i < rest.len() implies (rest[i] is Buy || rest[i] is Sell) by {
            assert(rest[i] == ops[i + 1]);
        }
        lemma_monotonic_supply(
            step(c, config, op),
            config,
            rest,
            held + trade_tokens_delta(c, op),
        );
    }
}

/// Fee conservation: for every trade the protocol and creator shares sum
/// exactly to the total fee, and the total fee is the configured
/// basis-point rate applied to the trade's fee base — the gross input of a
/// buy, the gross output of a sell — truncated down and never exceeding it.
pub proof fn lemma_fee_conservation(
    c: BondingCurve,
    sol_amount: u64,
    token_amount: u64,
    min_sol_out: u64,
)
    ensures
        buy_protocol_fee(sol_amount) + (buy_total_fee(sol_amount) - buy_protocol_fee(sol_amount))
            == fee_amount(sol_amount, TOTAL_FEE_BPS, BPS_DENOMINATOR),
        0 <= buy_protocol_fee(sol_amount) <= buy_total_fee(sol_amount) <= sol_amount,
        sell_err(c, token_amount, min_sol_out) is None ==> {
            &&& sell_protocol_fee(c, token_amount) + (sell_total_fee(c, token_amount)
                - sell_protocol_fee(c, token_amount)) == fee_amount(
                sell_gross(c, token_amount) as u64,
                TOTAL_FEE_BPS,
                BPS_DENOMINATOR,
            )
            &&& 0 <= sell_protocol_fee(c, token_amount) <= sell_total_fee(c, token_amount)
                <= sell_gross(c, token_amount)
        },
{
    lemma_total_fee_le_gross(sol_amount);
    if sell_err(c, token_amount, min_sol_out) is None {
        lemma_sell_next_fields(c, token_amount, min_sol_out);
        lemma_total_fee_le_gross(sell_gross(c, token_amount) as u64);
    }
}

/// A migrated curve rejects every trade: with a nonzero amount the answer
/// is exactly `AlreadyGraduated`, and a zero amount is rejected too.
pub proof fn lemma_migrated_rejects_trades(
    c: BondingCurve,
    sol_amount: u64,
    min_tokens_out: u64,
    token_amount: u64,
    min_sol_out: u64,
)
    requires
        c.wf(),
        c.lifecycle_state() is Migrated,
    ensures
        buy_err(c, sol_amount, min_tokens_out) is Some,
        sell_err(c, token_amount, min_sol_out) is Some,
        sol_amount != 0 ==> buy_err(c, sol_amount, min_tokens_out) == Some(
            ClawdVaultError::AlreadyGraduated,
        ),
        token_amount != 0 ==> sell_err(c, token_amount, min_sol_out) == Some(
            ClawdVaultError::AlreadyGraduated,
        ),
{
}

/// Idempotent migration: after a successful release, a second release by
/// any caller is rejected — with `AlreadyMigrated` for the authority — and
/// moves nothing: the state is unchanged and both real reserves are already
/// zero.
pub proof fn lemma_migration_idempotent(c: BondingCurve, config: Config, caller: AccountId)
    requires
        release_err(c, config, caller) is None,
    ensures
        ({
            let c2 = released_curve(c);
            &&& release_err(c2, config, caller) == Some(ClawdVaultError::AlreadyMigrated)
            &&& step(c2, config, Op::Release { caller }) == c2
            &&& c2.real_sol_reserves == 0
            &&& c2.real_token_reserves == 0
            &&& c2.lifecycle_state() is Migrated
        }),
{
}

} // verus!
