use clawdvault::state::LifecycleState;
use clawdvault::{
    buy, create_token, force_graduate, initialize, release_for_migration, sell, AccountId,
    ClawdVaultError, Config, GRADUATION_THRESHOLD, TOTAL_SUPPLY,
};

fn acct(n: u64) -> AccountId {
    AccountId::new(n, 0, 0, 0)
}

fn fresh_config() -> Config {
    initialize(acct(1), acct(2), 255)
}

#[test]
fn initialize_sets_registry_fields() {
    let config = fresh_config();
    assert_eq!(config.authority, acct(1));
    assert_eq!(config.fee_recipient, acct(2));
    assert_eq!(config.total_tokens_created, 0);
    assert_eq!(config.total_volume_sol, 0);
    assert_eq!(config.bump, 255);
}

#[test]
fn create_token_counts_and_seeds_curve() {
    let mut config = fresh_config();
    let out = create_token(
        &mut config,
        acct(3),
        acct(4),
        "Shadow".to_string(),
        "SHDW".to_string(),
        "https://example.com/shadow.json".to_string(),
        0,
        1_700_000_000,
        254,
        253,
    )
    .unwrap();
    assert_eq!(config.total_tokens_created, 1);
    assert_eq!(out.tokens_minted, TOTAL_SUPPLY);
    assert_eq!(out.initial_sol_net, 0);
    assert_eq!(out.initial_protocol_fee, 0);
    assert_eq!(out.initial_creator_fee, 0);
    assert_eq!(out.initial_total_fee, 0);
    assert_eq!(out.initial_tokens_out, 0);
    assert!(out.graduation.is_none());
    let c = out.curve;
    assert_eq!(c.creator, acct(3));
    assert_eq!(c.mint, acct(4));
    assert_eq!(c.virtual_sol_reserves, 30_000_000_000);
    assert_eq!(c.virtual_token_reserves, 1_000_000_000_000_000);
    assert_eq!(c.real_sol_reserves, 0);
    assert_eq!(c.real_token_reserves, TOTAL_SUPPLY);
    assert_eq!(c.token_total_supply, TOTAL_SUPPLY);
    assert_eq!(c.created_at, 1_700_000_000);
    assert_eq!(c.lifecycle(), LifecycleState::Active);
    assert_eq!(out.event.name, "Shadow");
    assert_eq!(out.event.symbol, "SHDW");
}

#[test]
fn create_token_with_initial_buy_prices_net_of_fee() {
    let mut config = fresh_config();
    let out = create_token(
        &mut config,
        acct(3),
        acct(4),
        "Shadow".to_string(),
        "SHDW".to_string(),
        "https://example.com/shadow.json".to_string(),
        10_000_000_000,
        1_700_000_000,
        254,
        253,
    )
    .unwrap();
    // Pricing uses the input net of the 1% fee: k / (30e9 + 9.9e9) — and
    // the curve banks only that net while the fee is charged.
    assert_eq!(out.initial_tokens_out, 248_120_300_751_880);
    assert_eq!(out.initial_sol_net, 9_900_000_000);
    assert_eq!(out.initial_protocol_fee, 50_000_000);
    assert_eq!(out.initial_creator_fee, 50_000_000);
    assert_eq!(out.initial_total_fee, 100_000_000);
    assert_eq!(out.initial_sol_net + out.initial_total_fee, 10_000_000_000);
    let c = out.curve;
    assert_eq!(c.virtual_sol_reserves, 39_900_000_000);
    assert_eq!(c.virtual_token_reserves, 751_879_699_248_120);
    assert_eq!(c.real_sol_reserves, 9_900_000_000);
    assert_eq!(c.real_token_reserves, 751_879_699_248_120);
    assert!(out.initial_tokens_out <= TOTAL_SUPPLY);
    assert!(!c.graduated);
    assert!(out.graduation.is_none());
}

#[test]
fn create_token_initial_buy_net_is_input_minus_fee() {
    // The net is the input less the truncated fee, not a truncated share of
    // the input: on 10_001 the fee is 100, the net 9_901.
    let mut config = fresh_config();
    let out = create_token(
        &mut config,
        acct(3),
        acct(4),
        "Shadow".to_string(),
        "SHDW".to_string(),
        "u".to_string(),
        10_001,
        0,
        0,
        0,
    )
    .unwrap();
    assert_eq!(out.initial_total_fee, 100);
    assert_eq!(out.initial_sol_net, 9_901);
    assert_eq!(out.curve.virtual_sol_reserves, 30_000_009_901);
    assert_eq!(out.curve.real_sol_reserves, 9_901);
}

#[test]
fn create_token_at_threshold_commits_graduated() {
    // The curve banks the net of fees, so the threshold is measured on the
    // net: a gross deposit of exactly the threshold nets 118.8e9 and stays
    // active, while 121_212_121_213 nets 120_000_000_001 and is committed
    // graduated, with exactly one transition event.
    let mut config = fresh_config();
    let below = create_token(
        &mut config,
        acct(3),
        acct(4),
        "Shadow".to_string(),
        "SHDW".to_string(),
        "u".to_string(),
        GRADUATION_THRESHOLD,
        9,
        0,
        0,
    )
    .unwrap();
    assert!(!below.curve.graduated);
    assert_eq!(below.curve.real_sol_reserves, 118_800_000_000);
    assert!(below.graduation.is_none());

    let out = create_token(
        &mut config,
        acct(3),
        acct(5),
        "Shadow".to_string(),
        "SHDW".to_string(),
        "u".to_string(),
        121_212_121_213,
        9,
        0,
        0,
    )
    .unwrap();
    let mut curve = out.curve;
    assert!(curve.graduated);
    assert_eq!(curve.lifecycle(), LifecycleState::Graduated);
    assert_eq!(out.initial_total_fee, 1_212_121_212);
    assert_eq!(out.initial_protocol_fee, 606_060_606);
    assert_eq!(out.initial_creator_fee, 606_060_606);
    assert_eq!(out.initial_sol_net, 120_000_000_001);
    assert_eq!(curve.real_sol_reserves, 120_000_000_001);
    assert_eq!(curve.virtual_sol_reserves, 150_000_000_001);
    assert_eq!(curve.virtual_token_reserves, 199_999_999_998_666);
    assert_eq!(out.initial_tokens_out, 800_000_000_001_334);
    let g = out.graduation.unwrap();
    assert_eq!(g.mint, acct(5));
    assert_eq!(g.sol_raised, 120_000_000_001);
    assert_eq!(g.timestamp, 9);
    // Trading on such a curve is closed from the start.
    assert_eq!(
        buy(&mut curve, acct(9), 1_000, 0, 0),
        Err(ClawdVaultError::AlreadyGraduated)
    );
    assert_eq!(
        sell(&mut curve, acct(9), 1_000, 0, 0),
        Err(ClawdVaultError::AlreadyGraduated)
    );
}

#[test]
fn create_token_length_limits_count_bytes() {
    // A two-byte character: sixteen of them are 32 bytes, the limit;
    // seventeen are 34 bytes and must be rejected.
    let mut config = fresh_config();
    let ok = create_token(
        &mut config,
        acct(3),
        acct(4),
        "\u{e9}".repeat(16),
        "s".to_string(),
        "u".to_string(),
        0,
        0,
        0,
        0,
    );
    assert!(ok.is_ok());
    let rejected = create_token(
        &mut config,
        acct(3),
        acct(5),
        "\u{e9}".repeat(17),
        "s".to_string(),
        "u".to_string(),
        0,
        0,
        0,
        0,
    );
    assert_eq!(rejected.unwrap_err(), ClawdVaultError::NameTooLong);
    let symbol_rejected = create_token(
        &mut config,
        acct(3),
        acct(6),
        "a".to_string(),
        "\u{e9}".repeat(6),
        "u".to_string(),
        0,
        0,
        0,
        0,
    );
    assert_eq!(symbol_rejected.unwrap_err(), ClawdVaultError::SymbolTooLong);
}

#[test]
fn create_token_rejects_long_name() {
    let mut config = fresh_config();
    let r = create_token(
        &mut config,
        acct(3),
        acct(4),
        "a".repeat(33),
        "SHDW".to_string(),
        "u".to_string(),
        0,
        0,
        0,
        0,
    );
    assert_eq!(r.unwrap_err(), ClawdVaultError::NameTooLong);
    assert_eq!(config.total_tokens_created, 0);
}

#[test]
fn create_token_rejects_long_symbol() {
    let mut config = fresh_config();
    let r = create_token(
        &mut config,
        acct(3),
        acct(4),
        "a".to_string(),
        "s".repeat(11),
        "u".to_string(),
        0,
        0,
        0,
        0,
    );
    assert_eq!(r.unwrap_err(), ClawdVaultError::SymbolTooLong);
}

#[test]
fn create_token_rejects_long_uri() {
    let mut config = fresh_config();
    let r = create_token(
        &mut config,
        acct(3),
        acct(4),
        "a".to_string(),
        "s".to_string(),
        "u".repeat(201),
        0,
        0,
        0,
        0,
    );
    assert_eq!(r.unwrap_err(), ClawdVaultError::UriTooLong);
}

#[test]
fn create_token_accepts_boundary_lengths() {
    let mut config = fresh_config();
    let r = create_token(
        &mut config,
        acct(3),
        acct(4),
        "a".repeat(32),
        "s".repeat(10),
        "u".repeat(200),
        0,
        0,
        0,
        0,
    );
    assert!(r.is_ok());
}

#[test]
fn graduation_fires_exactly_once_and_closes_trading() {
    let mut config = fresh_config();
    let mut curve = create_token(
        &mut config,
        acct(3),
        acct(4),
        "Shadow".to_string(),
        "SHDW".to_string(),
        "u".to_string(),
        0,
        0,
        0,
        0,
    )
    .unwrap()
    .curve;
    // First buy banks 69.3e9 net: below the 120e9 threshold, still active,
    // and no transition event.
    let first = buy(&mut curve, acct(9), 70_000_000_000, 0, 0).unwrap();
    assert!(!curve.graduated);
    assert_eq!(curve.lifecycle(), LifecycleState::Active);
    assert!(first.graduation.is_none());
    // Second buy crosses the threshold: exactly this one graduates, and
    // exactly this one carries the transition event.
    let out = buy(&mut curve, acct(9), 70_000_000_000, 0, 7).unwrap();
    assert!(curve.graduated);
    assert_eq!(curve.lifecycle(), LifecycleState::Graduated);
    assert_eq!(curve.real_sol_reserves, 138_600_000_000);
    assert!(curve.real_sol_reserves >= GRADUATION_THRESHOLD);
    assert_eq!(out.token_amount, 123_529_411_764_706);
    let g = out.graduation.unwrap();
    assert_eq!(g.mint, acct(4));
    assert_eq!(g.sol_raised, 138_600_000_000);
    assert_eq!(g.timestamp, 7);
    // All later trades are rejected without touching the state.
    let before = curve;
    assert_eq!(
        buy(&mut curve, acct(9), 1_000, 0, 0),
        Err(ClawdVaultError::AlreadyGraduated)
    );
    assert_eq!(
        sell(&mut curve, acct(9), 1_000, 0, 0),
        Err(ClawdVaultError::AlreadyGraduated)
    );
    assert_eq!(curve, before);
}

#[test]
fn release_moves_everything_once() {
    let mut config = fresh_config();
    let mut curve = create_token(
        &mut config,
        acct(3),
        acct(4),
        "Shadow".to_string(),
        "SHDW".to_string(),
        "u".to_string(),
        0,
        0,
        0,
        0,
    )
    .unwrap()
    .curve;
    buy(&mut curve, acct(9), 70_000_000_000, 0, 0).unwrap();
    buy(&mut curve, acct(9), 70_000_000_000, 0, 0).unwrap();
    assert!(curve.graduated);
    let sol_held = curve.real_sol_reserves;
    let tokens_held = curve.real_token_reserves;
    let out = release_for_migration(&mut curve, &config, acct(1), acct(77), 42).unwrap();
    assert_eq!(out.sol_amount, sol_held);
    assert_eq!(out.token_amount, tokens_held);
    assert_eq!(out.event.migration_wallet, acct(77));
    assert_eq!(out.event.sol_amount, sol_held);
    assert_eq!(out.event.token_amount, tokens_held);
    assert_eq!(out.event.timestamp, 42);
    assert_eq!(curve.real_sol_reserves, 0);
    assert_eq!(curve.real_token_reserves, 0);
    assert!(curve.migrated_to_raydium);
    assert_eq!(curve.lifecycle(), LifecycleState::Migrated);
    // A second release is rejected, not a silent success, and moves nothing.
    let before = curve;
    assert_eq!(
        release_for_migration(&mut curve, &config, acct(1), acct(77), 43),
        Err(ClawdVaultError::AlreadyMigrated)
    );
    assert_eq!(curve, before);
    // A migrated curve permanently rejects trades.
    assert_eq!(
        buy(&mut curve, acct(9), 1_000, 0, 0),
        Err(ClawdVaultError::AlreadyGraduated)
    );
    assert_eq!(
        sell(&mut curve, acct(9), 1_000, 0, 0),
        Err(ClawdVaultError::AlreadyGraduated)
    );
}

#[test]
fn release_requires_graduation() {
    let mut config = fresh_config();
    let mut curve = create_token(
        &mut config,
        acct(3),
        acct(4),
        "Shadow".to_string(),
        "SHDW".to_string(),
        "u".to_string(),
        0,
        0,
        0,
        0,
    )
    .unwrap()
    .curve;
    assert_eq!(
        release_for_migration(&mut curve, &config, acct(1), acct(77), 0),
        Err(ClawdVaultError::NotGraduated)
    );
}

#[test]
fn release_requires_authority() {
    let mut config = fresh_config();
    let mut curve = create_token(
        &mut config,
        acct(3),
        acct(4),
        "Shadow".to_string(),
        "SHDW".to_string(),
        "u".to_string(),
        0,
        0,
        0,
        0,
    )
    .unwrap()
    .curve;
    curve.graduated = true;
    assert_eq!(
        release_for_migration(&mut curve, &config, acct(99), acct(77), 0),
        Err(ClawdVaultError::Unauthorized)
    );
}

#[test]
fn force_graduate_authority_only_and_once() {
    let mut config = fresh_config();
    let mut curve = create_token(
        &mut config,
        acct(3),
        acct(4),
        "Shadow".to_string(),
        "SHDW".to_string(),
        "u".to_string(),
        0,
        0,
        0,
        0,
    )
    .unwrap()
    .curve;
    assert_eq!(
        force_graduate(&mut curve, &config, acct(99), 0),
        Err(ClawdVaultError::Unauthorized)
    );
    assert!(!curve.graduated);
    let ev = force_graduate(&mut curve, &config, acct(1), 5).unwrap();
    assert!(curve.graduated);
    assert_eq!(ev.mint, acct(4));
    assert_eq!(ev.sol_raised, 0);
    assert_eq!(ev.timestamp, 5);
    assert_eq!(
        force_graduate(&mut curve, &config, acct(1), 6),
        Err(ClawdVaultError::AlreadyGraduated)
    );
}
