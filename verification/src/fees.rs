//! Fee splitting: protocol and creator shares of a gross amount.

use vstd::prelude::*;
use crate::errors::ClawdVaultError;

verus! {

/// The three fee figures of one trade. The creator share is always the
/// difference `total_fee - protocol_fee`, so the split conserves value
/// exactly: `protocol_fee + creator_fee == total_fee`.
#[derive(Clone, Copy, Debug, PartialEq, Eq, Structural)]
pub struct FeeSplit {
    /// Share owed to the protocol's fee recipient.
    pub protocol_fee: u64,
    /// Share owed to the curve's creator.
    pub creator_fee: u64,
    /// The whole fee taken from the gross amount.
    pub total_fee: u64,
}

/// A basis-point fee, truncated toward zero: `gross * bps / denom`.
pub open spec fn fee_amount(gross: u64, bps: u64, denom: u64) -> int {
    (gross * bps) / (denom as int)
}

/// When `split` succeeds: the denominator is nonzero, neither scaled product
/// leaves the 64-bit range, and the protocol share does not exceed the total.
pub open spec fn split_ok(gross: u64, protocol_bps: u64, total_bps: u64, denom: u64) -> bool {
    &&& denom > 0
    &&& gross * total_bps <= u64::MAX
    &&& gross * protocol_bps <= u64::MAX
    &&& fee_amount(gross, protocol_bps, denom) <= fee_amount(gross, total_bps, denom)
}

/// Split a gross amount into protocol, creator and total fees at the given
/// basis-point rates.
///
/// The total and protocol fees are truncating basis-point fractions of the
/// gross amount; the creator fee is their difference, never computed
/// independently, so no rounding drift can break fee conservation. Fails with
/// `MathOverflow` when a scaled product leaves the 64-bit range, when the
/// denominator is zero, or when the protocol share would exceed the total.
pub fn split(gross: u64, protocol_bps: u64, total_bps: u64, denom: u64) -> (r: Result<
    FeeSplit,
    ClawdVaultError,
>)
    ensures
        match r {
            Ok(f) => {
                &&& split_ok(gross, protocol_bps, total_bps, denom)
                &&& f.total_fee == fee_amount(gross, total_bps, denom)
                &&& f.protocol_fee == fee_amount(gross, protocol_bps, denom)
                &&& f.creator_fee == f.total_fee - f.protocol_fee
                &&& f.protocol_fee + f.creator_fee == f.total_fee
            },
            Err(e) => {
                &&& e == ClawdVaultError::MathOverflow
                &&& !split_ok(gross, protocol_bps, total_bps, denom)
            },
        },
{
    if denom == 0 {
        return Err(ClawdVaultError::MathOverflow);
    }
    proof {
        assert((gross as int) * (total_bps as int) <= u64::MAX * u64::MAX)
            by (nonlinear_arith)
            requires
                gross <= u64::MAX,
                total_bps <= u64::MAX,
        ;
        assert((gross as int) * (protocol_bps as int) <= u64::MAX * u64::MAX)
            by (nonlinear_arith)
            requires
                gross <= u64::MAX,
                protocol_bps <= u64::MAX,
        ;
    }
    let wide_total: u128 = (gross as u128) * (total_bps as u128);
    if wide_total > u64::MAX as u128 {
        return Err(ClawdVaultError::MathOverflow);
    }
    let wide_protocol: u128 = (gross as u128) * (protocol_bps as u128);
    if wide_protocol > u64::MAX as u128 {
        return Err(ClawdVaultError::MathOverflow);
    }
    proof {
        vstd::arithmetic::div_mod::lemma_div_nonincreasing(wide_total as int, denom as int);
        vstd::arithmetic::div_mod::lemma_div_nonincreasing(wide_protocol as int, denom as int);
        vstd::arithmetic::div_mod::lemma_div_pos_is_pos(wide_total as int, denom as int);
        vstd::arithmetic::div_mod::lemma_div_pos_is_pos(wide_protocol as int, denom as int);
    }
    let total_fee: u64 = (wide_total / (denom as u128)) as u64;
    let protocol_fee: u64 = (wide_protocol / (denom as u128)) as u64;
    if protocol_fee > total_fee {
        return Err(ClawdVaultError::MathOverflow);
    }
    let creator_fee: u64 = total_fee - protocol_fee;
    Ok(FeeSplit { protocol_fee, creator_fee, total_fee })
}

} // verus!
