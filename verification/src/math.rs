//! Constant-product invariant solver.
//!
//! Given virtual reserves `(v_in, v_out)` and a trade that adds `amount_in`
//! to the in-side, the engine computes the out-side amount so that the
//! product of the virtual reserves is preserved up to the loss of one floor
//! division. The floor always rounds `amount_out` down, in the reserves'
//! favour, by design.
//!
//! The inverse mode backs out the largest `amount_in` consistent with a fixed
//! `amount_out` ceiling; sells use it when the requested settlement output
//! exceeds the curve's real reserves.

use vstd::prelude::*;
use vstd::arithmetic::div_mod::{
    lemma_div_is_ordered_by_denominator,
    lemma_div_multiples_vanish,
    lemma_div_pos_is_pos,
    lemma_fundamental_div_mod,
    lemma_mod_division_less_than_divisor,
};
use crate::errors::ClawdVaultError;

verus! {

/// Result of a forward swap: the virtual reserves after the trade and the
/// out-side amount they release.
#[derive(Clone, Copy, Debug, PartialEq, Eq, Structural)]
pub struct CurveQuote {
    /// In-side virtual reserve after the trade: `v_in + amount_in`.
    pub new_v_in: u64,
    /// Out-side virtual reserve after the trade: `floor(v_in * v_out / new_v_in)`.
    pub new_v_out: u64,
    /// What the trade releases: `v_out - new_v_out`.
    pub amount_out: u64,
}

/// Result of the inverse solve: the in-side virtual reserve consistent with a
/// capped output, and the in-side amount that reaches it.
#[derive(Clone, Copy, Debug, PartialEq, Eq, Structural)]
pub struct InverseQuote {
    /// In-side virtual reserve after the capped trade: `floor(k / (v_out - capped))`.
    pub new_v_in: u64,
    /// The most the trader can put in for the capped output: `new_v_in - v_in`.
    pub amount_in: u64,
}

/// The out-side virtual reserve after adding `amount_in` to the in-side.
pub open spec fn swap_new_v_out(v_in: u64, v_out: u64, amount_in: u64) -> int {
    (v_in * v_out) / (v_in + amount_in)
}

/// The out-side amount a forward swap releases.
pub open spec fn swap_amount_out(v_in: u64, v_out: u64, amount_in: u64) -> int {
    v_out - swap_new_v_out(v_in, v_out, amount_in)
}

/// When a forward swap is computable: the grown in-side reserve must fit in
/// 64 bits and be nonzero.
pub open spec fn swap_ok(v_in: u64, v_out: u64, amount_in: u64) -> bool {
    &&& v_in + amount_in <= u64::MAX
    &&& v_in + amount_in >= 1
}

/// Solve the forward swap `amount_in |-> amount_out` on virtual reserves
/// `(v_in, v_out)`.
///
/// On success the new reserves satisfy
/// `new_v_in * new_v_out <= v_in * v_out < new_v_in * (new_v_out + 1)`:
/// the invariant is preserved up to the remainder of one floor division, and
/// the loss is exactly `(v_in * v_out) % new_v_in`. Fails with `MathOverflow`
/// when `v_in + amount_in` leaves the 64-bit range or is zero.
pub fn swap_quote(v_in: u64, v_out: u64, amount_in: u64) -> (r: Result<
    CurveQuote,
    ClawdVaultError,
>)
    ensures
        match r {
            Ok(q) => {
                &&& swap_ok(v_in, v_out, amount_in)
                &&& q.new_v_in == v_in + amount_in
                &&& q.new_v_out == swap_new_v_out(v_in, v_out, amount_in)
                &&& q.amount_out == swap_amount_out(v_in, v_out, amount_in)
                &&& q.new_v_out <= v_out
                &&& q.new_v_in * q.new_v_out <= v_in * v_out
                &&& v_in * v_out - q.new_v_in * q.new_v_out == (v_in * v_out) % (
                q.new_v_in as int)
                &&& v_in * v_out - q.new_v_in * q.new_v_out < q.new_v_in
            },
            Err(e) => {
                &&& e == ClawdVaultError::MathOverflow
                &&& !swap_ok(v_in, v_out, amount_in)
            },
        },
{
    let new_v_in: u64 = match v_in.checked_add(amount_in) {
        Some(s) => s,
        None => {
            return Err(ClawdVaultError::MathOverflow);
        },
    };
    if new_v_in == 0 {
        return Err(ClawdVaultError::MathOverflow);
    }
    proof {
        assert((v_in as int) * (v_out as int) <= u64::MAX * u64::MAX) by (nonlinear_arith)
            requires
                v_in <= u64::MAX,
                v_out <= u64::MAX,
        ;
    }
    let k: u128 = (v_in as u128) * (v_out as u128);
    let new_v_out_wide: u128 = k / (new_v_in as u128);
    proof {
        if v_in > 0 {
            lemma_div_is_ordered_by_denominator(k as int, v_in as int, new_v_in as int);
            lemma_div_multiples_vanish(v_out as int, v_in as int);
        } else {
            lemma_div_pos_is_pos(0, new_v_in as int);
        }
        lemma_fundamental_div_mod(k as int, new_v_in as int);
        lemma_mod_division_less_than_divisor(k as int, new_v_in as int);
    }
    let new_v_out: u64 = new_v_out_wide as u64;
    let amount_out: u64 = v_out - new_v_out;
    Ok(CurveQuote { new_v_in, new_v_out, amount_out })
}

/// The in-side virtual reserve consistent with a capped out-side amount.
pub open spec fn inverse_new_v_in(v_in: u64, v_out: u64, capped_amount_out: u64) -> int {
    (v_in * v_out) / (v_out - capped_amount_out)
}

/// The largest in-side amount consistent with the capped output.
pub open spec fn inverse_amount_in(v_in: u64, v_out: u64, capped_amount_out: u64) -> int {
    inverse_new_v_in(v_in, v_out, capped_amount_out) - v_in
}

/// When the inverse solve is computable: the cap must leave a positive
/// out-side reserve, and the back-solved in-side reserve must fit in 64 bits.
pub open spec fn inverse_ok(v_in: u64, v_out: u64, capped_amount_out: u64) -> bool {
    &&& capped_amount_out < v_out
    &&& inverse_new_v_in(v_in, v_out, capped_amount_out) <= u64::MAX
}

/// Back-solve the largest `amount_in` whose forward swap releases exactly
/// `capped_amount_out`, from a fixed ceiling on the out side.
///
/// Solves `target_v_out = v_out - capped_amount_out`, then
/// `new_v_in = floor(k / target_v_out)` and `amount_in = new_v_in - v_in`.
/// Fails with `MathOverflow` when the cap exceeds `v_out` or `new_v_in`
/// leaves the 64-bit range, and with `InsufficientLiquidity` when the cap
/// would consume the entire out-side reserve.
pub fn inverse_quote(v_in: u64, v_out: u64, capped_amount_out: u64) -> (r: Result<
    InverseQuote,
    ClawdVaultError,
>)
    ensures
        match r {
            Ok(q) => {
                &&& inverse_ok(v_in, v_out, capped_amount_out)
                &&& q.new_v_in == inverse_new_v_in(v_in, v_out, capped_amount_out)
                &&& q.amount_in == inverse_amount_in(v_in, v_out, capped_amount_out)
                &&& q.new_v_in >= v_in
            },
            Err(e) => {
                &&& !inverse_ok(v_in, v_out, capped_amount_out)
                &&& e == (if capped_amount_out == v_out {
                    ClawdVaultError::InsufficientLiquidity
                } else {
                    ClawdVaultError::MathOverflow
                })
            },
        },
{
    let target_v_out: u64 = match v_out.checked_sub(capped_amount_out) {
        Some(t) => t,
        None => {
            return Err(ClawdVaultError::MathOverflow);
        },
    };
    if target_v_out == 0 {
        return Err(ClawdVaultError::InsufficientLiquidity);
    }
    proof {
        assert((v_in as int) * (v_out as int) <= u64::MAX * u64::MAX) by (nonlinear_arith)
            requires
                v_in <= u64::MAX,
                v_out <= u64::MAX,
        ;
    }
    let k: u128 = (v_in as u128) * (v_out as u128);
    let new_v_in_wide: u128 = k / (target_v_out as u128);
    proof {
        // v_out > 0 here, so floor(k / target_v_out) >= floor(k / v_out) == v_in.
        lemma_div_is_ordered_by_denominator(k as int, target_v_out as int, v_out as int);
        assert((v_out as int) * (v_in as int) == (v_in as int) * (v_out as int))
            by (nonlinear_arith);
        lemma_div_multiples_vanish(v_in as int, v_out as int);
    }
    if new_v_in_wide > u64::MAX as u128 {
        return Err(ClawdVaultError::MathOverflow);
    }
    let new_v_in: u64 = new_v_in_wide as u64;
    let amount_in: u64 = new_v_in - v_in;
    Ok(InverseQuote { new_v_in, amount_in })
}

} // verus!
