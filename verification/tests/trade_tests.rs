use clawdvault::{
    buy, create_token, initialize, sell, AccountId, BondingCurve, ClawdVaultError,
    GRADUATION_THRESHOLD, INITIAL_VIRTUAL_SOL, INITIAL_VIRTUAL_TOKENS, TOTAL_SUPPLY,
};

fn acct(n: u64) -> AccountId {
    AccountId::new(n, 0, 0, 0)
}

fn fresh_curve() -> BondingCurve {
    let mut config = initialize(acct(1), acct(2), 255);
    create_token(
        &mut config,
        acct(3),
        acct(4),
        "Shadow".to_string(),
        "SHDW".to_string(),
        "https://example.com/shadow.json".to_string(),
        0,
        1_700_000_000,
        254,
        253,
    )
    .unwrap()
    .curve
}

#[test]
fn buy_seed_curve_net_and_output() {
    let mut curve = fresh_curve();
    let out = buy(&mut curve, acct(9), 10_000_000_000, 0, 1_700_000_001).unwrap();
    // 1% total fee: the curve banks the net deposit while pricing moved by
    // the full input.
    assert_eq!(out.sol_net, 9_900_000_000);
    assert_eq!(out.protocol_fee, 50_000_000);
    assert_eq!(out.creator_fee, 50_000_000);
    assert_eq!(out.token_amount, 250_000_000_000_000);
    assert_eq!(curve.virtual_sol_reserves, 40_000_000_000);
    assert_eq!(curve.virtual_token_reserves, 750_000_000_000_000);
    assert_eq!(curve.real_sol_reserves, 9_900_000_000);
    assert_eq!(curve.real_token_reserves, 750_000_000_000_000);
    assert!(out.token_amount <= TOTAL_SUPPLY);
    // Trade event carries the post-trade reserves and the gross input.
    assert!(out.event.is_buy);
    assert_eq!(out.event.sol_amount, 10_000_000_000);
    assert_eq!(out.event.token_amount, 250_000_000_000_000);
    assert_eq!(out.event.virtual_sol_reserves, 40_000_000_000);
    assert_eq!(out.event.virtual_token_reserves, 750_000_000_000_000);
    assert_eq!(out.event.timestamp, 1_700_000_001);
    assert!(out.graduation.is_none());
}

#[test]
fn buy_preserves_invariant_within_tolerance() {
    let mut curve = fresh_curve();
    let k0 = u128::from(INITIAL_VIRTUAL_SOL) * u128::from(INITIAL_VIRTUAL_TOKENS);
    buy(&mut curve, acct(9), 12_345_678_901, 0, 0).unwrap();
    let k1 =
        u128::from(curve.virtual_sol_reserves) * u128::from(curve.virtual_token_reserves);
    assert!(k1 <= k0);
    assert!(k0 - k1 < u128::from(curve.virtual_sol_reserves));
}

#[test]
fn buy_fees_conserved() {
    let mut curve = fresh_curve();
    let out = buy(&mut curve, acct(9), 999_999_999, 0, 0).unwrap();
    let total = 999_999_999u64 * 100 / 10_000;
    assert_eq!(out.protocol_fee + out.creator_fee, total);
    assert_eq!(out.sol_net + out.protocol_fee + out.creator_fee, 999_999_999);
}

#[test]
fn buy_rejects_zero_amount() {
    let mut curve = fresh_curve();
    assert_eq!(
        buy(&mut curve, acct(9), 0, 0, 0),
        Err(ClawdVaultError::ZeroAmount)
    );
    assert_eq!(curve, fresh_curve());
}

#[test]
fn buy_rejects_slippage() {
    let mut curve = fresh_curve();
    assert_eq!(
        buy(&mut curve, acct(9), 10_000_000_000, 250_000_000_000_001, 0),
        Err(ClawdVaultError::SlippageExceeded)
    );
    assert_eq!(curve, fresh_curve());
}

#[test]
fn buy_rejects_insufficient_liquidity() {
    let mut curve = fresh_curve();
    curve.real_token_reserves = 1_000;
    let before = curve;
    assert_eq!(
        buy(&mut curve, acct(9), 10_000_000_000, 0, 0),
        Err(ClawdVaultError::InsufficientLiquidity)
    );
    assert_eq!(curve, before);
}

#[test]
fn buy_rejects_reserve_overflow() {
    let mut curve = fresh_curve();
    curve.virtual_sol_reserves = u64::MAX;
    assert_eq!(
        buy(&mut curve, acct(9), 1, 0, 0),
        Err(ClawdVaultError::MathOverflow)
    );
}

#[test]
fn buy_rejects_fee_overflow() {
    let mut curve = fresh_curve();
    // The grown reserve still fits, but gross * fee rate leaves 64 bits.
    assert_eq!(
        buy(&mut curve, acct(9), 200_000_000_000_000_000, 0, 0),
        Err(ClawdVaultError::MathOverflow)
    );
}

#[test]
fn sell_round_trip_returns_net_of_fees() {
    let mut curve = fresh_curve();
    let bought = buy(&mut curve, acct(9), 10_000_000_000, 0, 0).unwrap();
    let out = sell(&mut curve, acct(9), bought.token_amount, 0, 7).unwrap();
    // Selling everything back is capped at the real reserves (the buy only
    // banked the net deposit), so the payout is the whole vault less fees.
    assert_eq!(out.sol_gross, 9_900_000_000);
    assert_eq!(out.protocol_fee, 49_500_000);
    assert_eq!(out.creator_fee, 49_500_000);
    assert_eq!(out.sol_net, 9_801_000_000);
    assert_eq!(curve.real_sol_reserves, 0);
}

#[test]
fn sell_capped_settles_actual_not_requested() {
    let mut curve = fresh_curve();
    let bought = buy(&mut curve, acct(9), 10_000_000_000, 0, 0).unwrap();
    assert_eq!(bought.token_amount, 250_000_000_000_000);
    let out = sell(&mut curve, acct(9), 250_000_000_000_000, 0, 7).unwrap();
    // Requested output would be 10e9 but the vault holds only 9.9e9: the
    // sell settles capped, pulling fewer tokens than requested.
    assert!(out.token_amount < 250_000_000_000_000);
    assert_eq!(out.token_amount, 246_677_740_863_787);
    assert_eq!(out.sol_gross, 9_900_000_000);
    assert_eq!(out.sol_net, 9_801_000_000);
    // The event carries the capped amounts, not the requested ones.
    assert_eq!(out.event.token_amount, 246_677_740_863_787);
    assert_eq!(out.event.sol_amount, 9_801_000_000);
    assert!(!out.event.is_buy);
    assert_eq!(curve.virtual_token_reserves, 996_677_740_863_787);
    assert_eq!(curve.virtual_sol_reserves, 30_100_000_000);
    assert_eq!(curve.real_sol_reserves, 0);
    assert_eq!(curve.real_token_reserves, 996_677_740_863_787);
}

#[test]
fn sell_uncapped_exact_amounts() {
    let mut curve = fresh_curve();
    buy(&mut curve, acct(9), 10_000_000_000, 0, 0).unwrap();
    // Sell back only a small part: the requested output fits the reserves.
    let out = sell(&mut curve, acct(9), 50_000_000_000_000, 0, 7).unwrap();
    let k = 40_000_000_000u128 * 750_000_000_000_000u128;
    let new_vtok = 800_000_000_000_000u64;
    let new_vsol = (k / u128::from(new_vtok)) as u64;
    let gross = 40_000_000_000 - new_vsol;
    assert_eq!(out.token_amount, 50_000_000_000_000);
    assert_eq!(out.sol_gross, gross);
    assert_eq!(out.sol_net, gross - gross * 100 / 10_000);
    assert_eq!(curve.virtual_token_reserves, new_vtok);
    assert_eq!(curve.virtual_sol_reserves, new_vsol);
    assert!(out.graduation.is_none());
}

#[test]
fn sell_rejects_zero_amount() {
    let mut curve = fresh_curve();
    assert_eq!(
        sell(&mut curve, acct(9), 0, 0, 0),
        Err(ClawdVaultError::ZeroAmount)
    );
}

#[test]
fn sell_rejects_slippage() {
    let mut curve = fresh_curve();
    buy(&mut curve, acct(9), 10_000_000_000, 0, 0).unwrap();
    let before = curve;
    assert_eq!(
        sell(&mut curve, acct(9), 50_000_000_000_000, 10_000_000_000, 0),
        Err(ClawdVaultError::SlippageExceeded)
    );
    assert_eq!(curve, before);
}

#[test]
fn supply_conserved_across_buys_and_sells() {
    let mut curve = fresh_curve();
    let mut held: u64 = 0;
    let b1 = buy(&mut curve, acct(9), 10_000_000_000, 0, 0).unwrap();
    held += b1.token_amount;
    let b2 = buy(&mut curve, acct(10), 3_000_000_000, 0, 0).unwrap();
    held += b2.token_amount;
    let s1 = sell(&mut curve, acct(9), 100_000_000_000_000, 0, 0).unwrap();
    held -= s1.token_amount;
    assert_eq!(curve.real_token_reserves + held, TOTAL_SUPPLY);
    assert_eq!(curve.token_total_supply, TOTAL_SUPPLY);
}

#[test]
fn buy_does_not_graduate_below_threshold() {
    let mut curve = fresh_curve();
    buy(&mut curve, acct(9), 60_000_000_000, 0, 0).unwrap();
    assert!(!curve.graduated);
    assert!(curve.real_sol_reserves < GRADUATION_THRESHOLD);
}
