use yield_extraction::account::{AccountKey, Mint, TokenAccount, Treasury};
use yield_extraction::accountant::compute_extractable_yield;
use yield_extraction::error::ExtractionError;
use yield_extraction::extractor::{
    ExtractionResult, PoolState, ProtocolState, SwapOutcome, SwapRequest,
};
use yield_extraction::rate::ExchangeRate;
use yield_extraction::{extract_to_treasury_handler, ExtractToTreasury};

const STATE: u8 = 1;
const TREASURY: u8 = 2;
const MARINADE_STATE: u8 = 3;
const BLAZE_STATE: u8 = 4;
const GSOL_MINT: u8 = 5;
const MSOL_MINT: u8 = 6;
const BSOL_MINT: u8 = 7;
const LIQ_POOL_MINT: u8 = 8;
const LIQ_POOL_SOL_LEG: u8 = 9;
const LIQ_POOL_MSOL_LEG: u8 = 10;
const LIQ_POOL_TOKEN_ACCOUNT: u8 = 11;
const TREASURY_MSOL_ACCOUNT: u8 = 12;
const MSOL_VAULT: u8 = 13;
const MSOL_AUTHORITY: u8 = 14;
const BSOL_VAULT: u8 = 15;
const BSOL_AUTHORITY: u8 = 16;
const STRANGER: u8 = 99;

fn k(byte: u8) -> AccountKey {
    AccountKey::new([byte; 32])
}

fn rate(numerator: u64, denominator: u64) -> ExchangeRate {
    ExchangeRate::new(numerator, denominator).unwrap()
}

/// Consistent accounts: `msol` units in the primary vault at `msol_rate`,
/// `bsol` units in the secondary vault at 1.00, `supply` protocol tokens.
fn accounts(msol: u64, msol_rate: (u64, u64), bsol: u64, supply: u64) -> ExtractToTreasury {
    ExtractToTreasury {
        state: ProtocolState {
            key: k(STATE),
            treasury: k(TREASURY),
            marinade_state: k(MARINADE_STATE),
            blaze_state: k(BLAZE_STATE),
            gsol_mint: k(GSOL_MINT),
            msol_authority: k(MSOL_AUTHORITY),
            msol_authority_bump: 254,
            bsol_authority: k(BSOL_AUTHORITY),
            bsol_authority_bump: 253,
        },
        marinade_state: PoolState { key: k(MARINADE_STATE), rate: rate(msol_rate.0, msol_rate.1) },
        blaze_state: PoolState { key: k(BLAZE_STATE), rate: rate(1, 1) },
        msol_mint: Mint { key: k(MSOL_MINT), supply: 1_000_000 },
        gsol_mint: Mint { key: k(GSOL_MINT), supply },
        bsol_mint: Mint { key: k(BSOL_MINT), supply: 2_000_000 },
        liq_pool_mint: Mint { key: k(LIQ_POOL_MINT), supply: 3_000_000 },
        liq_pool_sol_leg_pda: k(LIQ_POOL_SOL_LEG),
        liq_pool_msol_leg: TokenAccount {
            key: k(LIQ_POOL_MSOL_LEG),
            mint: k(MSOL_MINT),
            authority: k(STRANGER),
            amount: 70_000,
        },
        liq_pool_token_account: TokenAccount {
            key: k(LIQ_POOL_TOKEN_ACCOUNT),
            mint: k(LIQ_POOL_MINT),
            authority: k(MSOL_AUTHORITY),
            amount: 10,
        },
        treasury_msol_account: TokenAccount {
            key: k(TREASURY_MSOL_ACCOUNT),
            mint: k(MSOL_MINT),
            authority: k(TREASURY),
            amount: 0,
        },
        get_msol_from: TokenAccount {
            key: k(MSOL_VAULT),
            mint: k(MSOL_MINT),
            authority: k(MSOL_AUTHORITY),
            amount: msol,
        },
        get_msol_from_authority: k(MSOL_AUTHORITY),
        get_bsol_from: TokenAccount {
            key: k(BSOL_VAULT),
            mint: k(BSOL_MINT),
            authority: k(BSOL_AUTHORITY),
            amount: bsol,
        },
        get_bsol_from_authority: k(BSOL_AUTHORITY),
        treasury: Treasury { key: k(TREASURY), lamports: 7 },
    }
}

fn scenario_with_yield() -> ExtractToTreasury {
    accounts(1000, (105, 100), 500, 1500)
}

fn request_for(derivative_amount: u64, extractable_yield: u64) -> SwapRequest {
    SwapRequest {
        pool: k(MARINADE_STATE),
        vault: k(MSOL_VAULT),
        authority: k(MSOL_AUTHORITY),
        authority_bump: 254,
        derivative_amount,
        extractable_yield,
    }
}

#[test]
fn handler_converts_the_yield_to_primary_pool_units_rounding_down() {
    // Backing 1050 + 500 against 1500 owed: 50 of yield, 50 / 1.05 = 47.6.. -> 47 units.
    let ctx = scenario_with_yield();
    assert_eq!(extract_to_treasury_handler(&ctx), Ok(request_for(47, 50)));
}

#[test]
fn handler_asks_for_a_swap_of_zero_when_there_is_no_yield() {
    let ctx = accounts(1000, (1, 1), 500, 1500);
    assert_eq!(extract_to_treasury_handler(&ctx), Ok(request_for(0, 0)));
}

#[test]
fn handler_clamps_a_deficit_to_a_swap_of_zero() {
    // Backing 990 + 500 = 1490 against 1500 owed.
    let ctx = accounts(1000, (99, 100), 500, 1500);
    assert_eq!(extract_to_treasury_handler(&ctx), Ok(request_for(0, 0)));
}

#[test]
fn handler_does_not_change_the_accounts() {
    let ctx = scenario_with_yield();
    let before = ctx;
    let _ = extract_to_treasury_handler(&ctx);
    assert_eq!(ctx, before);
}

#[test]
fn handler_uses_the_primary_pool_rate_for_the_conversion() {
    // Backing 2000 + 500 against 1500 owed: 1000 of yield, 500 units at 2.00.
    let ctx = accounts(1000, (2, 1), 500, 1500);
    assert_eq!(extract_to_treasury_handler(&ctx), Ok(request_for(500, 1000)));
}

#[test]
fn handler_refuses_each_inconsistent_account() {
    let consistent = scenario_with_yield();
    assert!(consistent.validate().is_ok());
    let mut broken: Vec<ExtractToTreasury> = Vec::new();

    let mut ctx = consistent;
    ctx.treasury.key = k(STRANGER);
    broken.push(ctx);
    let mut ctx = consistent;
    ctx.state.treasury = k(STRANGER);
    broken.push(ctx);
    let mut ctx = consistent;
    ctx.marinade_state.key = k(STRANGER);
    broken.push(ctx);
    let mut ctx = consistent;
    ctx.blaze_state.key = k(STRANGER);
    broken.push(ctx);
    let mut ctx = consistent;
    ctx.gsol_mint.key = k(STRANGER);
    broken.push(ctx);
    let mut ctx = consistent;
    ctx.liq_pool_mint.key = k(STRANGER);
    broken.push(ctx);
    let mut ctx = consistent;
    ctx.liq_pool_token_account.authority = k(STRANGER);
    broken.push(ctx);
    let mut ctx = consistent;
    ctx.msol_mint.key = k(STRANGER);
    broken.push(ctx);
    let mut ctx = consistent;
    ctx.get_msol_from.mint = k(BSOL_MINT);
    broken.push(ctx);
    let mut ctx = consistent;
    ctx.get_msol_from.authority = k(BSOL_AUTHORITY);
    broken.push(ctx);
    let mut ctx = consistent;
    ctx.get_msol_from_authority = k(BSOL_AUTHORITY);
    broken.push(ctx);
    let mut ctx = consistent;
    ctx.state.msol_authority = k(STRANGER);
    broken.push(ctx);
    let mut ctx = consistent;
    ctx.bsol_mint.key = k(STRANGER);
    broken.push(ctx);
    let mut ctx = consistent;
    ctx.get_bsol_from.authority = k(MSOL_AUTHORITY);
    broken.push(ctx);
    let mut ctx = consistent;
    ctx.get_bsol_from_authority = k(MSOL_AUTHORITY);
    broken.push(ctx);
    let mut ctx = consistent;
    ctx.state.bsol_authority = k(STRANGER);
    broken.push(ctx);

    assert_eq!(broken.len(), 16);
    for ctx in broken.iter() {
        assert_eq!(ctx.validate(), Err(ExtractionError::ConstraintViolation));
        assert_eq!(extract_to_treasury_handler(ctx), Err(ExtractionError::ConstraintViolation));
    }
}

#[test]
fn handler_reports_inconsistent_accounts_before_arithmetic_errors() {
    let mut ctx = accounts(u64::MAX, (2, 1), 500, 1500);
    assert_eq!(extract_to_treasury_handler(&ctx), Err(ExtractionError::ArithmeticOverflow));
    ctx.state.treasury = k(STRANGER);
    assert_eq!(extract_to_treasury_handler(&ctx), Err(ExtractionError::ConstraintViolation));
}

#[test]
fn handler_fails_with_overflow_when_the_backing_does_not_fit() {
    let ctx = accounts(u64::MAX, (1, 1), 1, 0);
    assert_eq!(extract_to_treasury_handler(&ctx), Err(ExtractionError::ArithmeticOverflow));
}

#[test]
fn handler_fails_with_overflow_when_the_units_do_not_fit() {
    // The yield is u64::MAX of base currency; at a rate of 0.5 that is twice as many units.
    let ctx = accounts(0, (1, 2), u64::MAX, 0);
    assert_eq!(extract_to_treasury_handler(&ctx), Err(ExtractionError::ArithmeticOverflow));
}

#[test]
fn handler_fails_with_underflow_when_the_vault_cannot_cover_the_yield() {
    // All the yield sits in the secondary vault: 510 units of the primary
    // pool's token would have to leave a vault that holds 10.
    let ctx = accounts(10, (1, 1), 1000, 500);
    assert_eq!(extract_to_treasury_handler(&ctx), Err(ExtractionError::ArithmeticUnderflow));
    // One unit less of yield than the vault holds is fine.
    let ctx = accounts(10, (1, 1), 1000, 1000);
    assert_eq!(extract_to_treasury_handler(&ctx), Ok(request_for(10, 10)));
}

#[test]
fn settle_moves_the_swap_and_nothing_else() {
    let mut ctx = scenario_with_yield();
    let before = ctx;
    let request = extract_to_treasury_handler(&ctx).unwrap();
    let result = ctx.settle(&request, SwapOutcome::Credited(48));
    assert_eq!(
        result,
        Ok(ExtractionResult { extractable_yield: 50, derivative_debited: 47, base_credited: 48 })
    );
    assert_eq!(ctx.get_msol_from.amount, 953);
    assert_eq!(ctx.treasury.lamports, 55);
    let mut expected = before;
    expected.get_msol_from.amount = 953;
    expected.treasury.lamports = 55;
    assert_eq!(ctx, expected);
}

#[test]
fn zero_yield_leaves_every_balance_unchanged() {
    let mut ctx = accounts(1000, (1, 1), 500, 1500);
    let before = ctx;
    let request = extract_to_treasury_handler(&ctx).unwrap();
    assert_eq!(request.derivative_amount, 0);
    let result = ctx.settle(&request, SwapOutcome::Credited(0));
    assert_eq!(
        result,
        Ok(ExtractionResult { extractable_yield: 0, derivative_debited: 0, base_credited: 0 })
    );
    assert_eq!(ctx, before);
    assert_eq!(ctx.settle(&request, SwapOutcome::Failed), Err(ExtractionError::ExternalCallFailed));
    assert_eq!(ctx, before);
}

#[test]
fn zero_yield_never_changes_a_vault() {
    let mut ctx = accounts(1000, (99, 100), 500, 1500);
    let before = ctx;
    let request = extract_to_treasury_handler(&ctx).unwrap();
    assert!(ctx.settle(&request, SwapOutcome::Credited(3)).is_ok());
    assert_eq!(ctx.get_msol_from, before.get_msol_from);
    assert_eq!(ctx.get_bsol_from, before.get_bsol_from);
}

#[test]
fn insufficient_liquidity_leaves_the_accounts_untouched() {
    let mut ctx = scenario_with_yield();
    let before = ctx;
    let request = extract_to_treasury_handler(&ctx).unwrap();
    assert_eq!(
        ctx.settle(&request, SwapOutcome::InsufficientLiquidity),
        Err(ExtractionError::InsufficientLiquidity)
    );
    assert_eq!(ctx, before);
}

#[test]
fn failed_call_leaves_the_accounts_untouched() {
    let mut ctx = scenario_with_yield();
    let before = ctx;
    let request = extract_to_treasury_handler(&ctx).unwrap();
    assert_eq!(ctx.settle(&request, SwapOutcome::Failed), Err(ExtractionError::ExternalCallFailed));
    assert_eq!(ctx, before);
}

#[test]
fn credit_beyond_the_treasury_balance_range_fails_with_overflow() {
    let mut ctx = scenario_with_yield();
    ctx.treasury.lamports = u64::MAX - 47;
    let before = ctx;
    let request = extract_to_treasury_handler(&ctx).unwrap();
    assert_eq!(
        ctx.settle(&request, SwapOutcome::Credited(48)),
        Err(ExtractionError::ArithmeticOverflow)
    );
    assert_eq!(ctx, before);
    assert!(ctx.settle(&request, SwapOutcome::Credited(47)).is_ok());
    assert_eq!(ctx.treasury.lamports, u64::MAX);
    assert_eq!(ctx.get_msol_from.amount, 953);
}

#[test]
fn debit_beyond_the_vault_balance_fails_with_underflow() {
    let mut ctx = scenario_with_yield();
    let before = ctx;
    assert_eq!(
        ctx.settle(&request_for(1001, 50), SwapOutcome::Credited(1)),
        Err(ExtractionError::ArithmeticUnderflow)
    );
    assert_eq!(ctx, before);
    assert!(ctx.settle(&request_for(1000, 50), SwapOutcome::Credited(1)).is_ok());
    assert_eq!(ctx.get_msol_from.amount, 0);
}

#[test]
fn request_against_another_vault_is_refused() {
    let mut ctx = scenario_with_yield();
    let before = ctx;
    let mut request = request_for(47, 50);
    request.vault = k(BSOL_VAULT);
    assert_eq!(
        ctx.settle(&request, SwapOutcome::Credited(48)),
        Err(ExtractionError::ConstraintViolation)
    );
    assert_eq!(ctx, before);
}

#[test]
fn request_under_another_authority_is_refused() {
    let mut ctx = scenario_with_yield();
    let before = ctx;
    let mut request = request_for(47, 50);
    request.authority = k(BSOL_AUTHORITY);
    assert_eq!(
        ctx.settle(&request, SwapOutcome::Credited(48)),
        Err(ExtractionError::ConstraintViolation)
    );
    let mut request = request_for(47, 50);
    request.authority_bump = 253;
    assert_eq!(
        ctx.settle(&request, SwapOutcome::Credited(48)),
        Err(ExtractionError::ConstraintViolation)
    );
    assert_eq!(ctx, before);
}

#[test]
fn request_for_another_pool_is_refused() {
    let mut ctx = scenario_with_yield();
    let before = ctx;
    let mut request = request_for(47, 50);
    request.pool = k(BLAZE_STATE);
    assert_eq!(
        ctx.settle(&request, SwapOutcome::Credited(48)),
        Err(ExtractionError::ConstraintViolation)
    );
    assert_eq!(ctx, before);
}

#[test]
fn settle_refuses_inconsistent_accounts() {
    let mut ctx = scenario_with_yield();
    ctx.state.treasury = k(STRANGER);
    let before = ctx;
    assert_eq!(
        ctx.settle(&request_for(47, 50), SwapOutcome::Credited(48)),
        Err(ExtractionError::ConstraintViolation)
    );
    assert_eq!(ctx, before);
}

#[test]
fn inconsistency_is_reported_before_the_mechanism_failure() {
    let mut ctx = scenario_with_yield();
    let mut request = request_for(47, 50);
    request.vault = k(BSOL_VAULT);
    assert_eq!(
        ctx.settle(&request, SwapOutcome::InsufficientLiquidity),
        Err(ExtractionError::ConstraintViolation)
    );
    assert_eq!(
        ctx.settle(&request_for(1001, 50), SwapOutcome::Failed),
        Err(ExtractionError::ArithmeticUnderflow)
    );
}

#[test]
fn extraction_leaves_the_principal_backed() {
    let cases = [
        (1000u64, (105u64, 100u64), 500u64, 1500u64),
        (1000, (1_234_567_891, 1_000_000_007), 500, 1500),
        (1_000_000, (7, 3), 1, 999),
        (1_000_000, (3, 7), 0, 1),
        (123_456_789, (1_000_000_007, 998_244_353), 987_654_321, 1_000_000_000),
    ];
    for (msol, msol_rate, bsol, supply) in cases {
        let mut ctx = accounts(msol, msol_rate, bsol, supply);
        let request = extract_to_treasury_handler(&ctx).unwrap();
        ctx.settle(&request, SwapOutcome::Credited(request.extractable_yield)).unwrap();
        let remaining = ctx.marinade_state.rate.to_base_currency(ctx.get_msol_from.amount).unwrap()
            + ctx.get_bsol_from.amount;
        assert!(remaining >= supply);
        // What is left over is less than one more unit would be worth.
        let vaults = ctx.collect_vaults();
        let rates = ctx.collect_rates();
        let left = compute_extractable_yield(&vaults, &rates, supply).unwrap();
        assert!(left <= msol_rate.0 / msol_rate.1 + 1);
    }
}

#[test]
fn collected_vaults_and_rates_mirror_the_accounts() {
    let ctx = scenario_with_yield();
    let vaults = ctx.collect_vaults();
    assert_eq!(vaults.len(), 2);
    assert_eq!(vaults[0], ctx.designated_vault());
    assert_eq!(vaults[0].key, k(MSOL_VAULT));
    assert_eq!(vaults[0].pool, k(MARINADE_STATE));
    assert_eq!(vaults[0].authority, k(MSOL_AUTHORITY));
    assert_eq!(vaults[0].balance, 1000);
    assert_eq!(vaults[1].key, k(BSOL_VAULT));
    assert_eq!(vaults[1].pool, k(BLAZE_STATE));
    assert_eq!(vaults[1].authority, k(BSOL_AUTHORITY));
    assert_eq!(vaults[1].balance, 500);
    let rates = ctx.collect_rates();
    assert_eq!(rates.rate_of(&k(MARINADE_STATE)), Some(rate(105, 100)));
    assert_eq!(rates.rate_of(&k(BLAZE_STATE)), Some(rate(1, 1)));
    assert_eq!(rates.rate_of(&k(STRANGER)), None);
    assert_eq!(compute_extractable_yield(&vaults, &rates, 1500), Ok(50));
}
