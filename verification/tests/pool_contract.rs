// Pool decisions: initialization, liquidity, swaps, fees and previews, driven
// through the library the way the pool contract drives them.

use belugaswap::pool::{BelugaPool, PoolConfig, PoolError, PoolState};
use belugaswap::position::Position;
use belugaswap::swap::{PreviewError, SwapError};
use belugaswap::tick::TickTable;
use soroban_sdk::Env;

const DEFAULT_FEE_BPS: u32 = 30;
const DEFAULT_CREATOR_FEE_BPS: u32 = 100;
const DEFAULT_TICK_SPACING: i32 = 60;
const DEFAULT_SQRT_PRICE_X64: u128 = 1u128 << 64;
const DEFAULT_TICK: i32 = 0;

fn setup_custom_pool(
    fee_bps: u32,
    creator_fee_bps: u32,
    sqrt_price_x64: u128,
    current_tick: i32,
    tick_spacing: i32,
) -> (PoolConfig, PoolState, TickTable) {
    let (config, state) =
        BelugaPool::initialize(false, fee_bps, creator_fee_bps, sqrt_price_x64, current_tick, tick_spacing).unwrap();
    (config, state, TickTable::new())
}

fn setup_pool() -> (PoolConfig, PoolState, TickTable) {
    setup_custom_pool(DEFAULT_FEE_BPS, DEFAULT_CREATOR_FEE_BPS, DEFAULT_SQRT_PRICE_X64, DEFAULT_TICK, DEFAULT_TICK_SPACING)
}

#[test]
fn test_creator_fee_accrues_and_is_claimable() {
    let env = Env::default();
    let (config, mut state, mut ticks) = setup_custom_pool(30, 1000, DEFAULT_SQRT_PRICE_X64, 0, 60);

    let liq_amt: i128 = 100_000_000_000;
    let mut lp = Position::default();
    BelugaPool::add_liquidity(&env, &mut state, &mut ticks, &mut lp, -600, 600, liq_amt, liq_amt, 0, 0).unwrap();

    // token0 in: the factory reports the creator fee active.
    let amt_in: i128 = 10_000_000_000;
    let res = BelugaPool::swap(&env, &config, &mut state, &mut ticks, Some(true), amt_in, 0, 0, Some(true)).unwrap();
    assert!(res.amount_out > 0);

    let cf = BelugaPool::get_creator_fees(&state);
    let claimed = BelugaPool::claim_creator_fees(&mut state);

    assert!(cf.fees_token0 > 0, "creator fee charged but never credited");
    assert_eq!(claimed.0, cf.fees_token0, "claim must pay out the recorded creator fee");
    assert_eq!(claimed.1, cf.fees_token1);
    let after = BelugaPool::get_creator_fees(&state);
    assert_eq!(after.fees_token0, 0);
    assert_eq!(after.fees_token1, 0);
}

#[test]
fn test_creator_fee_configuration() {
    let (config, _state, _ticks) = setup_custom_pool(30, 1, DEFAULT_SQRT_PRICE_X64, DEFAULT_TICK, DEFAULT_TICK_SPACING);
    assert_eq!(config.creator_fee_bps, 1);
}

#[test]
fn test_get_creator_fees_initial_state() {
    let (_config, state, _ticks) = setup_pool();
    let fees = BelugaPool::get_creator_fees(&state);
    assert_eq!(fees.fees_token0, 0);
    assert_eq!(fees.fees_token1, 0);
}

#[test]
fn test_claim_creator_fees_no_fees() {
    let (_config, mut state, _ticks) = setup_pool();
    let result = BelugaPool::claim_creator_fees(&mut state);
    assert_eq!(result.0, 0);
    assert_eq!(result.1, 0);
}

#[test]
fn test_initialization_test_initialization_success() {
    let (config, state, _ticks) = setup_pool();
    assert_eq!(state.sqrt_price_x64, DEFAULT_SQRT_PRICE_X64);
    assert_eq!(state.current_tick, DEFAULT_TICK);
    assert_eq!(state.liquidity, 0);
    assert_eq!(state.tick_spacing, DEFAULT_TICK_SPACING);
    assert_eq!(config.fee_bps, DEFAULT_FEE_BPS);
    assert_eq!(config.creator_fee_bps, DEFAULT_CREATOR_FEE_BPS);
}

#[test]
fn test_collect_fees_no_position() {
    let env = Env::default();
    let (_config, state, ticks) = setup_pool();
    let mut pos = Position::default();
    let result = BelugaPool::collect_fees(&env, &state, &ticks, &mut pos, -600, 600).unwrap();
    assert_eq!(result.0, 0);
    assert_eq!(result.1, 0);
}

#[test]
fn test_get_position_various_ranges() {
    let env = Env::default();
    let (_config, state, ticks) = setup_pool();
    let empty = Position::default();
    let pos1 = BelugaPool::get_position(&env, &state, &ticks, &empty, -600, 600).unwrap();
    let pos2 = BelugaPool::get_position(&env, &state, &ticks, &empty, -1200, 1200).unwrap();
    let pos3 = BelugaPool::get_position(&env, &state, &ticks, &empty, 0, 600).unwrap();
    assert_eq!(pos1.liquidity, 0);
    assert_eq!(pos2.liquidity, 0);
    assert_eq!(pos3.liquidity, 0);
}

#[test]
fn test_pool_initialized_state() {
    let (_config, state, _ticks) = setup_pool();
    assert_eq!(state.liquidity, 0);
}

#[test]
fn test_get_pool_state() {
    let (_config, state, _ticks) = setup_pool();
    assert_eq!(state.sqrt_price_x64, DEFAULT_SQRT_PRICE_X64);
    assert_eq!(state.current_tick, DEFAULT_TICK);
    assert_eq!(state.liquidity, 0);
    assert_eq!(state.tick_spacing, DEFAULT_TICK_SPACING);
}

#[test]
fn test_get_pool_config() {
    let (config, _state, _ticks) = setup_pool();
    assert_eq!(config.fee_bps, DEFAULT_FEE_BPS);
    assert_eq!(config.creator_fee_bps, DEFAULT_CREATOR_FEE_BPS);
}

#[test]
fn test_get_position_empty() {
    let env = Env::default();
    let (_config, state, ticks) = setup_pool();
    let position = BelugaPool::get_position(&env, &state, &ticks, &Position::default(), -600, 600).unwrap();
    assert_eq!(position.liquidity, 0);
    assert_eq!(position.amount0, 0);
    assert_eq!(position.amount1, 0);
}

// ------------------------------------------------------------
// Initialization rules
// ------------------------------------------------------------

#[test]
fn pool_initialize_rejects_each_rule() {
    assert_eq!(BelugaPool::initialize(true, 30, 100, DEFAULT_SQRT_PRICE_X64, 0, 60).unwrap_err(), PoolError::AlreadyInitialized);
    assert_eq!(BelugaPool::initialize(false, 0, 100, DEFAULT_SQRT_PRICE_X64, 0, 60).unwrap_err(), PoolError::InvalidFee);
    assert_eq!(BelugaPool::initialize(false, 10001, 100, DEFAULT_SQRT_PRICE_X64, 0, 60).unwrap_err(), PoolError::InvalidFee);
    assert_eq!(BelugaPool::initialize(false, 30, 0, DEFAULT_SQRT_PRICE_X64, 0, 60).unwrap_err(), PoolError::InvalidCreatorFee);
    assert_eq!(BelugaPool::initialize(false, 30, 1001, DEFAULT_SQRT_PRICE_X64, 0, 60).unwrap_err(), PoolError::InvalidCreatorFee);
    assert_eq!(BelugaPool::initialize(false, 30, 100, DEFAULT_SQRT_PRICE_X64, 0, 0).unwrap_err(), PoolError::InvalidTickSpacing);
    assert_eq!(BelugaPool::initialize(false, 30, 100, DEFAULT_SQRT_PRICE_X64, 0, -10).unwrap_err(), PoolError::InvalidTickSpacing);
    assert!(BelugaPool::initialize(false, 10000, 1000, DEFAULT_SQRT_PRICE_X64, 0, 1).is_ok());
}

#[test]
fn pool_error_messages() {
    assert_eq!(PoolError::AlreadyInitialized.message(), "pool already initialized");
    assert_eq!(PoolError::SlippageExceeded.message(), "slippage tolerance exceeded");
    assert_eq!(PoolError::Swap(SwapError::NoLiquidity).message(), "no liquidity available");
    assert_eq!(PoolError::PositionLocked.message(), "position is locked");
}

// ------------------------------------------------------------
// Swap direction, creator share and locks
// ------------------------------------------------------------

#[test]
fn pool_swap_direction() {
    assert_eq!(BelugaPool::get_swap_direction(true, false), Ok(true));
    assert_eq!(BelugaPool::get_swap_direction(false, true), Ok(false));
    assert_eq!(BelugaPool::get_swap_direction(false, false), Err(PoolError::InvalidToken));
}

#[test]
fn pool_active_creator_fee_follows_factory() {
    let (config, _state, _ticks) = setup_pool();
    assert_eq!(BelugaPool::get_active_creator_fee_bps_safe(&config, Some(true)), 100);
    assert_eq!(BelugaPool::get_active_creator_fee_bps_safe(&config, Some(false)), 0);
    assert_eq!(BelugaPool::get_active_creator_fee_bps_safe(&config, None), 0);
}

#[test]
fn pool_position_lock_rules() {
    assert!(!BelugaPool::is_position_locked(false, None));
    assert!(!BelugaPool::is_position_locked(false, Some(true)));
    assert!(BelugaPool::is_position_locked(true, Some(true)));
    assert!(!BelugaPool::is_position_locked(true, Some(false)));
    assert!(BelugaPool::is_position_locked(true, None));
}

#[test]
fn pool_aligned_range_snaps_down() {
    let (_config, state, _ticks) = setup_pool();
    assert_eq!(BelugaPool::aligned_range(&state, -601, 650), Ok((-660, 600)));
    assert_eq!(BelugaPool::aligned_range(&state, i32::MIN, 600), Err(PoolError::ArithmeticOverflow));
}

// ------------------------------------------------------------
// Liquidity
// ------------------------------------------------------------

#[test]
fn pool_add_liquidity_in_range_updates_everything() {
    let env = Env::default();
    let (_config, mut state, mut ticks) = setup_pool();
    let mut pos = Position::default();
    let (liquidity, a0, a1) =
        BelugaPool::add_liquidity(&env, &mut state, &mut ticks, &mut pos, -600, 600, 1_000_000, 1_000_000, 0, 0).unwrap();
    assert!(liquidity >= 1000);
    assert!(a0 > 0 && a0 <= 1_000_000);
    assert!(a1 > 0 && a1 <= 1_000_000);
    assert_eq!(state.liquidity, liquidity);
    assert_eq!(pos.liquidity, liquidity);
    assert_eq!(ticks.read(-600).liquidity_gross, liquidity);
    assert_eq!(ticks.read(-600).liquidity_net, liquidity);
    assert_eq!(ticks.read(600).liquidity_net, -liquidity);
    assert!(ticks.read(600).initialized);
}

#[test]
fn pool_add_liquidity_out_of_range_leaves_active_liquidity() {
    let env = Env::default();
    let (_config, mut state, mut ticks) = setup_pool();
    let mut pos = Position::default();
    let (liquidity, a0, a1) =
        BelugaPool::add_liquidity(&env, &mut state, &mut ticks, &mut pos, 600, 1200, 1_000_000, 1_000_000, 0, 0).unwrap();
    assert!(liquidity > 0);
    assert!(a0 > 0);
    assert_eq!(a1, 0);
    assert_eq!(state.liquidity, 0);
}

#[test]
fn pool_add_liquidity_rejections() {
    let env = Env::default();
    let (_config, mut state, mut ticks) = setup_pool();
    let mut pos = Position::default();
    // Snapped bounds collapse onto one tick.
    assert_eq!(
        BelugaPool::add_liquidity(&env, &mut state, &mut ticks, &mut pos, 600, 610, 1_000_000, 1_000_000, 0, 0),
        Err(PoolError::InvalidTickRange)
    );
    // Beyond the supported tick range.
    assert_eq!(
        BelugaPool::add_liquidity(&env, &mut state, &mut ticks, &mut pos, -600, 900_000, 1_000_000, 1_000_000, 0, 0),
        Err(PoolError::TickOutOfRange)
    );
    // Too little to reach the minimum liquidity.
    assert_eq!(
        BelugaPool::add_liquidity(&env, &mut state, &mut ticks, &mut pos, -600, 600, 1, 1, 0, 0),
        Err(PoolError::LiquidityTooLow)
    );
    // A minimum above what is taken.
    assert_eq!(
        BelugaPool::add_liquidity(&env, &mut state, &mut ticks, &mut pos, -600, 600, 1_000_000, 1_000_000, 2_000_000, 0),
        Err(PoolError::SlippageExceeded)
    );
    // Nothing changed.
    assert_eq!(state.liquidity, 0);
    assert_eq!(pos.liquidity, 0);
    assert_eq!(ticks.read(-600).liquidity_gross, 0);
}

#[test]
fn pool_mint_returns_liquidity_without_slippage_check() {
    let env = Env::default();
    let (_config, mut state, mut ticks) = setup_pool();
    let mut pos = Position::default();
    let liquidity = BelugaPool::mint(&env, &mut state, &mut ticks, &mut pos, -600, 600, 10_000_000, 10_000_000).unwrap();
    assert!(liquidity > 0);
    assert_eq!(pos.liquidity, liquidity);
}

#[test]
fn pool_add_then_remove_returns_same_amounts() {
    let env = Env::default();
    let (_config, mut state, mut ticks) = setup_pool();
    let mut pos = Position::default();
    let (liquidity, a0, a1) =
        BelugaPool::add_liquidity(&env, &mut state, &mut ticks, &mut pos, -600, 600, 5_000_000, 5_000_000, 0, 0).unwrap();
    let (b0, b1) = BelugaPool::remove_liquidity(
        &env, &mut state, &mut ticks, &mut pos, -600, 600, liquidity, 0, 0, false, None,
    )
    .unwrap();
    assert_eq!((b0, b1), (a0, a1));
    assert_eq!(state.liquidity, 0);
    assert_eq!(pos.liquidity, 0);
    assert_eq!(ticks.read(-600).liquidity_gross, 0);
    assert!(!ticks.read(-600).initialized);
}

#[test]
fn pool_remove_liquidity_rejections() {
    let env = Env::default();
    let (_config, mut state, mut ticks) = setup_pool();
    let mut pos = Position::default();
    let (liquidity, _, _) =
        BelugaPool::add_liquidity(&env, &mut state, &mut ticks, &mut pos, -600, 600, 5_000_000, 5_000_000, 0, 0).unwrap();
    let before = pos;
    assert_eq!(
        BelugaPool::remove_liquidity(&env, &mut state, &mut ticks, &mut pos, -600, 600, 0, 0, 0, false, None),
        Err(PoolError::InvalidLiquidityAmount)
    );
    assert_eq!(
        BelugaPool::remove_liquidity(&env, &mut state, &mut ticks, &mut pos, -600, 600, liquidity, 0, 0, true, None),
        Err(PoolError::PositionLocked)
    );
    assert_eq!(
        BelugaPool::remove_liquidity(&env, &mut state, &mut ticks, &mut pos, -600, 600, liquidity + 1, 0, 0, false, None),
        Err(PoolError::InsufficientLiquidity)
    );
    assert_eq!(
        BelugaPool::remove_liquidity(&env, &mut state, &mut ticks, &mut pos, -600, 600, liquidity, i128::MAX, 0, false, None),
        Err(PoolError::SlippageExceeded)
    );
    assert_eq!(pos.liquidity, before.liquidity);
    assert_eq!(state.liquidity, liquidity);
    // The creator may withdraw once the factory says the position is not locked.
    assert!(BelugaPool::remove_liquidity(&env, &mut state, &mut ticks, &mut pos, -600, 600, liquidity, 0, 0, true, Some(false)).is_ok());
}

// ------------------------------------------------------------
// Swaps and fees
// ------------------------------------------------------------

#[test]
fn pool_swap_rejections_change_nothing() {
    let env = Env::default();
    let (config, mut state, mut ticks) = setup_pool();
    assert_eq!(
        BelugaPool::swap(&env, &config, &mut state, &mut ticks, Some(true), 0, 0, 0, None).unwrap_err(),
        PoolError::AmountNotPositive
    );
    assert_eq!(
        BelugaPool::swap(&env, &config, &mut state, &mut ticks, None, 1000, 0, 0, None).unwrap_err(),
        PoolError::InvalidToken
    );
    assert_eq!(
        BelugaPool::swap(&env, &config, &mut state, &mut ticks, Some(true), 1000, 0, 0, None).unwrap_err(),
        PoolError::Swap(SwapError::NoLiquidity)
    );
    let mut pos = Position::default();
    BelugaPool::add_liquidity(&env, &mut state, &mut ticks, &mut pos, -600, 600, 100_000_000, 100_000_000, 0, 0).unwrap();
    let before = state;
    assert_eq!(
        BelugaPool::swap(&env, &config, &mut state, &mut ticks, Some(true), 1_000_000, i128::MAX, 0, Some(true)).unwrap_err(),
        PoolError::SlippageExceeded
    );
    assert_eq!(state.sqrt_price_x64, before.sqrt_price_x64);
    assert_eq!(state.creator_fees_0, 0);
}

#[test]
fn pool_swap_moves_price_and_pays_lps() {
    let env = Env::default();
    let (config, mut state, mut ticks) = setup_pool();
    let mut pos = Position::default();
    BelugaPool::add_liquidity(&env, &mut state, &mut ticks, &mut pos, -600, 600, 100_000_000, 100_000_000, 0, 0).unwrap();

    // token1 in: the price rises, fee growth of token1 grows.
    let res = BelugaPool::swap(&env, &config, &mut state, &mut ticks, Some(false), 1_000_000, 1, 0, Some(false)).unwrap();
    assert!(res.amount_out > 0);
    assert!(res.amount_out < res.amount_in);
    assert!(state.sqrt_price_x64 > DEFAULT_SQRT_PRICE_X64);
    assert_eq!(res.sqrt_price_x64, state.sqrt_price_x64);
    assert!(state.fee_growth_global_1 > 0);
    assert_eq!(state.creator_fees_1, 0, "no creator fee while the factory reports it inactive");

    // The LP now has fees to collect, and a second collection pays nothing.
    let (f0, f1) = BelugaPool::collect_fees(&env, &state, &ticks, &mut pos, -600, 600).unwrap();
    assert_eq!(f0, 0);
    assert!(f1 > 0);
    let (g0, g1) = BelugaPool::collect_fees(&env, &state, &ticks, &mut pos, -600, 600).unwrap();
    assert_eq!((g0, g1), (0, 0));
}

#[test]
fn pool_preview_matches_swap() {
    let env = Env::default();
    let (config, mut state, mut ticks) = setup_pool();
    let mut pos = Position::default();
    BelugaPool::add_liquidity(&env, &mut state, &mut ticks, &mut pos, -600, 600, 100_000_000, 100_000_000, 0, 0).unwrap();

    let preview = BelugaPool::preview_swap(&env, &config, &state, &ticks, Some(true), 1_000_000, 0, 0).unwrap();
    assert!(preview.is_valid);
    assert_eq!(preview.error_message, None);
    assert_eq!(preview.fee_paid, preview.amount_in_used - preview.amount_out_expected);
    assert_eq!(
        preview.price_impact_bps,
        (1_000_000 - preview.amount_out_expected) * 10000 / 1_000_000
    );

    let res = BelugaPool::swap(&env, &config, &mut state, &mut ticks, Some(true), 1_000_000, 0, 0, None).unwrap();
    assert_eq!(res.amount_in, preview.amount_in_used);
    assert_eq!(res.amount_out, preview.amount_out_expected);
}

#[test]
fn pool_preview_rejections() {
    let env = Env::default();
    let (config, state, ticks) = setup_pool();
    let bad = BelugaPool::preview_swap(&env, &config, &state, &ticks, None, 1000, 0, 0).unwrap();
    assert!(!bad.is_valid);
    assert_eq!(bad.error_message, Some(PreviewError::BadToken));
    assert_eq!(bad.error_message.unwrap().code(), "BAD_TOKEN");
    let low = BelugaPool::preview_swap(&env, &config, &state, &ticks, Some(true), 0, 0, 0).unwrap();
    assert_eq!(low.error_message, Some(PreviewError::AmountLow));
    let no_liq = BelugaPool::preview_swap(&env, &config, &state, &ticks, Some(true), 1000, 0, 0).unwrap();
    assert_eq!(no_liq.error_message, Some(PreviewError::NoLiquidity));
}

#[test]
fn pool_position_reports_pending_fees() {
    let env = Env::default();
    let (config, mut state, mut ticks) = setup_pool();
    let mut pos = Position::default();
    BelugaPool::add_liquidity(&env, &mut state, &mut ticks, &mut pos, -600, 600, 100_000_000, 100_000_000, 0, 0).unwrap();
    BelugaPool::swap(&env, &config, &mut state, &mut ticks, Some(true), 1_000_000, 0, 0, None).unwrap();
    let info = BelugaPool::get_position(&env, &state, &ticks, &pos, -600, 600).unwrap();
    assert_eq!(info.liquidity, pos.liquidity);
    assert!(info.fees_owed_0 > 0);
    assert_eq!(info.fees_owed_1, 0);
    assert_eq!(
        BelugaPool::get_position(&env, &state, &ticks, &pos, -600, 900_000).unwrap_err(),
        PoolError::TickOutOfRange
    );
}

#[test]
fn pool_swap_from_an_active_boundary_crosses_it() {
    let env = Env::default();
    let (config, mut state, mut ticks) = setup_pool();
    let mut wide = Position::default();
    let mut upper_half = Position::default();
    let (l_wide, _, _) =
        BelugaPool::add_liquidity(&env, &mut state, &mut ticks, &mut wide, -600, 600, 100_000_000, 100_000_000, 0, 0).unwrap();
    let (l_half, _, _) =
        BelugaPool::add_liquidity(&env, &mut state, &mut ticks, &mut upper_half, 0, 600, 100_000_000, 100_000_000, 0, 0)
            .unwrap();
    assert_eq!(state.liquidity, l_wide + l_half);
    // The price sits exactly on tick 0, whose liquidity leaves the range on the
    // way down: the swap crosses it and goes on with the wide position alone.
    let res = BelugaPool::swap(&env, &config, &mut state, &mut ticks, Some(true), 1_000_000, 0, 0, Some(false)).unwrap();
    assert!(res.amount_out > 0);
    assert!(state.sqrt_price_x64 < DEFAULT_SQRT_PRICE_X64);
    assert_eq!(state.liquidity, l_wide);
    assert!(state.current_tick < 0);
}
