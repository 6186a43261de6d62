//! Protocol initialization and curve creation.

use vstd::prelude::*;
use vstd::string::StringSliceAdditionalSpecFns;
use vstd::utf8::encode_utf8;
use crate::{
    BPS_DENOMINATOR, GRADUATION_THRESHOLD, INITIAL_VIRTUAL_SOL, INITIAL_VIRTUAL_TOKENS,
    PROTOCOL_FEE_BPS, TOTAL_FEE_BPS, TOTAL_SUPPLY,
};
use crate::account_id::AccountId;
use crate::errors::ClawdVaultError;
use crate::events::{GraduationEvent, TokenCreatedEvent};
use crate::fees;
use crate::fees::{fee_amount, split_ok};
use crate::math;
use crate::state::{BondingCurve, Config};
use crate::trade::lemma_total_fee_le_gross;

verus! {

/// Create the protocol registry with its authority and fee recipient; the
/// counters start at zero.
pub fn initialize(authority: AccountId, fee_recipient: AccountId, bump: u8) -> (c: Config)
    ensures
        c == (Config { authority, fee_recipient, total_tokens_created: 0, total_volume_sol: 0, bump }),
{
    Config { authority, fee_recipient, total_tokens_created: 0, total_volume_sol: 0, bump }
}

/// Everything a curve creation produced: the new ledger entry, the amounts
/// the host must mint and move, and the creation event. The initial buy is
/// a regular trade: its fees are charged, not merely reported, and all the
/// fields below are zero when no initial buy was requested.
#[derive(Debug, PartialEq, Eq)]
pub struct CreateOutcome {
    /// The newly created curve state.
    pub curve: BondingCurve,
    /// Tokens the host mints into the curve's vault: the whole supply.
    pub tokens_minted: u64,
    /// Settlement the host moves from the creator to the curve's vault for
    /// the initial buy: the input net of fees, exactly what the curve banks.
    pub initial_sol_net: u64,
    /// Fee share of the initial buy the host pays to the protocol's fee
    /// recipient.
    pub initial_protocol_fee: u64,
    /// Fee share of the initial buy owed to the curve's creator — who is
    /// also the buyer here, so the host may settle it in place.
    pub initial_creator_fee: u64,
    /// The whole fee of the initial buy: `initial_protocol_fee +
    /// initial_creator_fee`, and together with `initial_sol_net` the whole
    /// input.
    pub initial_total_fee: u64,
    /// Tokens the host sends from the vault to the creator for the initial buy.
    pub initial_tokens_out: u64,
    /// The creation event to publish.
    pub event: TokenCreatedEvent,
    /// The graduation event to publish when the initial net deposit alone
    /// reaches the graduation threshold, so the curve is committed already
    /// graduated; `None` otherwise.
    pub graduation: Option<GraduationEvent>,
}

/// Settlement amount the initial buy prices with and the curve banks: the
/// input less the total fee, each part truncated as the fee splitter does.
pub open spec fn initial_net(amount: u64) -> int {
    amount - fee_amount(amount, TOTAL_FEE_BPS, BPS_DENOMINATOR)
}

/// Tokens the initial buy releases from the fresh curve.
pub open spec fn initial_tokens_out(amount: u64) -> int {
    INITIAL_VIRTUAL_TOKENS - (INITIAL_VIRTUAL_SOL * INITIAL_VIRTUAL_TOKENS) / (
    INITIAL_VIRTUAL_SOL + initial_net(amount))
}

/// Why a creation fails, or `None` when it succeeds; the conditions are
/// tested in this order. The length limits are on the UTF-8 byte encoding
/// of the metadata strings, as the host stores them.
pub open spec fn create_err(
    config: Config,
    name: Seq<char>,
    symbol: Seq<char>,
    uri: Seq<char>,
    initial_buy_lamports: u64,
) -> Option<ClawdVaultError> {
    if encode_utf8(name).len() > 32 {
        Some(ClawdVaultError::NameTooLong)
    } else if encode_utf8(symbol).len() > 10 {
        Some(ClawdVaultError::SymbolTooLong)
    } else if encode_utf8(uri).len() > 200 {
        Some(ClawdVaultError::UriTooLong)
    } else if config.total_tokens_created + 1 > u64::MAX {
        Some(ClawdVaultError::MathOverflow)
    } else if initial_buy_lamports > 0 && !split_ok(
        initial_buy_lamports,
        PROTOCOL_FEE_BPS,
        TOTAL_FEE_BPS,
        BPS_DENOMINATOR,
    ) {
        Some(ClawdVaultError::MathOverflow)
    } else if initial_buy_lamports > 0 && INITIAL_VIRTUAL_SOL + initial_net(initial_buy_lamports)
        > u64::MAX {
        Some(ClawdVaultError::MathOverflow)
    } else {
        None
    }
}

/// The curve a successful creation commits: seeded virtual reserves, the
/// whole supply in the vault, and — when an initial buy was requested — the
/// first trade already applied. The initial buy prices on and banks the
/// input net of fees, like any trade. A net deposit that alone reaches the
/// graduation threshold commits the curve already graduated, so an active
/// curve never sits at or above the threshold.
pub open spec fn created_curve(
    creator: AccountId,
    mint: AccountId,
    initial_buy_lamports: u64,
    now: i64,
    bump: u8,
    sol_vault_bump: u8,
) -> BondingCurve {
    let base = BondingCurve {
        creator,
        mint,
        virtual_sol_reserves: INITIAL_VIRTUAL_SOL,
        virtual_token_reserves: INITIAL_VIRTUAL_TOKENS,
        real_sol_reserves: 0,
        real_token_reserves: TOTAL_SUPPLY,
        token_total_supply: TOTAL_SUPPLY,
        graduated: false,
        migrated_to_raydium: false,
        created_at: now,
        bump,
        sol_vault_bump,
    };
    if initial_buy_lamports == 0 {
        base
    } else {
        BondingCurve {
            virtual_sol_reserves: (INITIAL_VIRTUAL_SOL + initial_net(initial_buy_lamports)) as u64,
            virtual_token_reserves: ((INITIAL_VIRTUAL_SOL * INITIAL_VIRTUAL_TOKENS) / (
            INITIAL_VIRTUAL_SOL + initial_net(initial_buy_lamports))) as u64,
            real_sol_reserves: initial_net(initial_buy_lamports) as u64,
            real_token_reserves: (TOTAL_SUPPLY - initial_tokens_out(initial_buy_lamports)) as u64,
            graduated: initial_net(initial_buy_lamports) >= GRADUATION_THRESHOLD,
            ..base
        }
    }
}

/// Create a new token's bonding curve, with an optional initial buy.
///
/// Validates the metadata lengths (in UTF-8 bytes), counts the creation in
/// the registry, and returns the curve the host must persist together with
/// the mint amount and the initial-buy transfers. The initial buy is
/// charged like any trade: the curve banks the input net of fees, and the
/// outcome lists the two fee payments the host must make, which together
/// with the net deposit account for the whole input. Succeeds exactly when
/// [`create_err`] is `None`; then the committed curve is well-formed — in
/// particular, a net deposit at or above the graduation threshold commits
/// the curve already graduated, and the outcome carries the graduation
/// event to publish. On any error the registry is unchanged and no curve
/// is produced.
pub fn create_token(
    config: &mut Config,
    creator: AccountId,
    mint: AccountId,
    name: String,
    symbol: String,
    uri: String,
    initial_buy_lamports: u64,
    now: i64,
    bump: u8,
    sol_vault_bump: u8,
) -> (r: Result<CreateOutcome, ClawdVaultError>)
    ensures
        match r {
            Ok(out) => {
                &&& create_err(*old(config), name@, symbol@, uri@, initial_buy_lamports) is None
                &&& *final(config) == (Config {
                    total_tokens_created: (old(config).total_tokens_created + 1) as u64,
                    ..*old(config)
                })
                &&& out.curve == created_curve(
                    creator,
                    mint,
                    initial_buy_lamports,
                    now,
                    bump,
                    sol_vault_bump,
                )
                &&& out.tokens_minted == TOTAL_SUPPLY
                &&& out.initial_sol_net == (if initial_buy_lamports == 0 {
                    0int
                } else {
                    initial_net(initial_buy_lamports)
                })
                &&& out.initial_protocol_fee == (if initial_buy_lamports == 0 {
                    0int
                } else {
                    fee_amount(initial_buy_lamports, PROTOCOL_FEE_BPS, BPS_DENOMINATOR)
                })
                &&& out.initial_total_fee == (if initial_buy_lamports == 0 {
                    0int
                } else {
                    fee_amount(initial_buy_lamports, TOTAL_FEE_BPS, BPS_DENOMINATOR)
                })
                &&& out.initial_creator_fee == out.initial_total_fee - out.initial_protocol_fee
                &&& out.initial_protocol_fee + out.initial_creator_fee == out.initial_total_fee
                &&& out.initial_sol_net + out.initial_total_fee == initial_buy_lamports
                &&& out.initial_tokens_out == (if initial_buy_lamports == 0 {
                    0int
                } else {
                    initial_tokens_out(initial_buy_lamports)
                })
                &&& out.curve.wf()
                &&& out.curve.graduated == (initial_net(initial_buy_lamports)
                    >= GRADUATION_THRESHOLD)
                &&& out.event == (TokenCreatedEvent {
                    mint,
                    creator,
                    name,
                    symbol,
                    uri,
                    timestamp: now,
                })
                &&& out.graduation == (if out.curve.graduated {
                    Some(
                        GraduationEvent {
                            mint,
                            sol_raised: out.curve.real_sol_reserves,
                            timestamp: now,
                        },
                    )
                } else {
                    Option::<GraduationEvent>::None
                })
            },
            Err(e) => {
                &&& create_err(*old(config), name@, symbol@, uri@, initial_buy_lamports) == Some(e)
                &&& *final(config) == *old(config)
            },
        },
{
    if name.as_str().as_bytes().len() > 32 {
        return Err(ClawdVaultError::NameTooLong);
    }
    if symbol.as_str().as_bytes().len() > 10 {
        return Err(ClawdVaultError::SymbolTooLong);
    }
    if uri.as_str().as_bytes().len() > 200 {
        return Err(ClawdVaultError::UriTooLong);
    }
    let new_count: u64 = match config.total_tokens_created.checked_add(1) {
        Some(n) => n,
        None => {
            return Err(ClawdVaultError::MathOverflow);
        },
    };
    let mut curve = BondingCurve {
        creator,
        mint,
        virtual_sol_reserves: INITIAL_VIRTUAL_SOL,
        virtual_token_reserves: INITIAL_VIRTUAL_TOKENS,
        real_sol_reserves: 0,
        real_token_reserves: TOTAL_SUPPLY,
        token_total_supply: TOTAL_SUPPLY,
        graduated: false,
        migrated_to_raydium: false,
        created_at: now,
        bump,
        sol_vault_bump,
    };
    let mut first_sol_net: u64 = 0;
    let mut first_protocol_fee: u64 = 0;
    let mut first_creator_fee: u64 = 0;
    let mut first_total_fee: u64 = 0;
    let mut first_tokens_out: u64 = 0;
    if initial_buy_lamports > 0 {
        let f = match fees::split(
            initial_buy_lamports,
            PROTOCOL_FEE_BPS,
            TOTAL_FEE_BPS,
            BPS_DENOMINATOR,
        ) {
            Ok(f) => f,
            Err(e) => {
                return Err(e);
            },
        };
        proof {
            lemma_total_fee_le_gross(initial_buy_lamports);
        }
        let sol_after_fee: u64 = initial_buy_lamports - f.total_fee;
        let q = match math::swap_quote(INITIAL_VIRTUAL_SOL, INITIAL_VIRTUAL_TOKENS, sol_after_fee) {
            Ok(q) => q,
            Err(e) => {
                return Err(e);
            },
        };
        curve.virtual_sol_reserves = q.new_v_in;
        curve.virtual_token_reserves = q.new_v_out;
        curve.real_sol_reserves = sol_after_fee;
        curve.real_token_reserves = TOTAL_SUPPLY - q.amount_out;
        first_sol_net = sol_after_fee;
        first_protocol_fee = f.protocol_fee;
        first_creator_fee = f.creator_fee;
        first_total_fee = f.total_fee;
        first_tokens_out = q.amount_out;
    }
    let mut graduation: Option<GraduationEvent> = None;
    if curve.real_sol_reserves >= GRADUATION_THRESHOLD {
        curve.graduated = true;
        graduation = Some(
            GraduationEvent { mint, sol_raised: curve.real_sol_reserves, timestamp: now },
        );
    }
    config.total_tokens_created = new_count;
    let event = TokenCreatedEvent { mint, creator, name, symbol, uri, timestamp: now };
    Ok(
        CreateOutcome {
            curve,
            tokens_minted: TOTAL_SUPPLY,
            initial_sol_net: first_sol_net,
            initial_protocol_fee: first_protocol_fee,
            initial_creator_fee: first_creator_fee,
            initial_total_fee: first_total_fee,
            initial_tokens_out: first_tokens_out,
            event,
            graduation,
        },
    )
}

} // verus!
