// Factory decisions: fee tiers, pool creation rules and the creator lock.

use belugaswap::factory::{BelugaFactory, CreatePoolParams, CreatorLock, FactoryError, FeeTierTable, PoolPlan};

const MIN_LOCK_DURATION: u32 = 120_960;
const MIN_INITIAL_LIQUIDITY: i128 = 1_000_000;

fn setup_factory() -> FeeTierTable {
    let mut tiers = FeeTierTable::new();
    BelugaFactory::initialize(false, &mut tiers).unwrap();
    tiers
}

fn default_pool_params() -> CreatePoolParams {
    CreatePoolParams {
        fee_bps: 30,
        creator_fee_bps: 100,
        initial_sqrt_price_x64: 1u128 << 64,
        amount0_desired: 10_000_000,
        amount1_desired: 10_000_000,
        lower_tick: -600,
        upper_tick: 600,
        lock_duration: 120_960,
    }
}

fn create(tiers: &FeeTierTable, params: &CreatePoolParams) -> Result<PoolPlan, FactoryError> {
    BelugaFactory::create_pool(true, false, true, false, tiers, params)
}

#[test]
fn test_fee_tiers() {
    let tiers = setup_factory();
    assert!(BelugaFactory::get_fee_tier(&tiers, 5).is_some());
    assert!(BelugaFactory::get_fee_tier(&tiers, 30).is_some());
    assert!(BelugaFactory::get_fee_tier(&tiers, 100).is_some());
}

#[test]
fn test_default_fee_tiers() {
    let tiers = setup_factory();

    let tier_5 = BelugaFactory::get_fee_tier(&tiers, 5);
    assert!(tier_5.is_some());
    let tier = tier_5.unwrap();
    assert_eq!(tier.fee_bps, 5);
    assert_eq!(tier.tick_spacing, 10);
    assert_eq!(tier.enabled, true);

    let tier_30 = BelugaFactory::get_fee_tier(&tiers, 30);
    assert!(tier_30.is_some());
    let tier = tier_30.unwrap();
    assert_eq!(tier.fee_bps, 30);
    assert_eq!(tier.tick_spacing, 60);
    assert_eq!(tier.enabled, true);

    let tier_100 = BelugaFactory::get_fee_tier(&tiers, 100);
    assert!(tier_100.is_some());
    let tier = tier_100.unwrap();
    assert_eq!(tier.fee_bps, 100);
    assert_eq!(tier.tick_spacing, 200);
    assert_eq!(tier.enabled, true);
}

#[test]
fn test_add_custom_fee_tier() {
    let mut tiers = setup_factory();
    BelugaFactory::set_fee_tier(&mut tiers, 15, 30, true).unwrap();
    let tier = BelugaFactory::get_fee_tier(&tiers, 15);
    assert!(tier.is_some());
    let tier = tier.unwrap();
    assert_eq!(tier.fee_bps, 15);
    assert_eq!(tier.tick_spacing, 30);
    assert_eq!(tier.enabled, true);
}

#[test]
fn test_disable_fee_tier() {
    let mut tiers = setup_factory();
    BelugaFactory::set_fee_tier(&mut tiers, 30, 60, false).unwrap();
    let tier = BelugaFactory::get_fee_tier(&tiers, 30);
    assert!(tier.is_some());
    assert_eq!(tier.unwrap().enabled, false);
}

#[test]
fn test_modify_fee_tier_spacing() {
    let mut tiers = setup_factory();
    BelugaFactory::set_fee_tier(&mut tiers, 30, 120, true).unwrap();
    let tier = BelugaFactory::get_fee_tier(&tiers, 30);
    assert!(tier.is_some());
    assert_eq!(tier.unwrap().tick_spacing, 120);
}

#[test]
fn test_nonexistent_fee_tier() {
    let tiers = setup_factory();
    let tier = BelugaFactory::get_fee_tier(&tiers, 999);
    assert!(tier.is_none());
}

#[test]
fn test_initialization_success() {
    let mut tiers = FeeTierTable::new();
    assert_eq!(BelugaFactory::initialize(false, &mut tiers), Ok(()));
    assert!(BelugaFactory::get_fee_tier(&tiers, 30).is_some());
}

#[test]
fn test_nonexistent_creator_lock() {
    let lock: Option<CreatorLock> = None;
    assert!(lock.is_none());
    assert!(!BelugaFactory::is_creator_fee_active(lock));
    assert_eq!(BelugaFactory::unlock_creator_liquidity(lock, true, 0), Err(FactoryError::CreatorLockNotFound));
}

#[test]
fn test_minimum_liquidity_valid() {
    let tiers = setup_factory();
    let mut params = default_pool_params();
    params.amount0_desired = 1_000_000;
    params.amount1_desired = 1_000_000;
    assert!(create(&tiers, &params).is_ok());
}

#[test]
fn test_permanent_lock_valid() {
    let tiers = setup_factory();
    let mut params = default_pool_params();
    params.lock_duration = 0;
    let plan = create(&tiers, &params).unwrap();
    assert!(plan.is_permanent);
}

#[test]
fn test_minimum_lock_duration_valid() {
    let tiers = setup_factory();
    let mut params = default_pool_params();
    params.lock_duration = 120_960;
    let plan = create(&tiers, &params).unwrap();
    assert!(!plan.is_permanent);
}

#[test]
fn test_minimum_creator_fee_valid() {
    let tiers = setup_factory();
    let mut params = default_pool_params();
    params.creator_fee_bps = 10;
    assert!(create(&tiers, &params).is_ok());
}

#[test]
fn test_maximum_creator_fee_valid() {
    let tiers = setup_factory();
    let mut params = default_pool_params();
    params.creator_fee_bps = 1000;
    assert!(create(&tiers, &params).is_ok());
}

fn with_amounts(a0: i128, a1: i128) -> Result<PoolPlan, FactoryError> {
    let mut params = default_pool_params();
    params.amount0_desired = a0;
    params.amount1_desired = a1;
    create(&setup_factory(), &params)
}

#[test]
fn test_boundary_amounts() {
    assert!(with_amounts(MIN_INITIAL_LIQUIDITY, MIN_INITIAL_LIQUIDITY).is_ok());
    assert_eq!(with_amounts(MIN_INITIAL_LIQUIDITY - 1, MIN_INITIAL_LIQUIDITY), Err(FactoryError::InsufficientInitialLiquidity));
    assert_eq!(with_amounts(MIN_INITIAL_LIQUIDITY, MIN_INITIAL_LIQUIDITY - 1), Err(FactoryError::InsufficientInitialLiquidity));
    assert_eq!(with_amounts(0, 0), Err(FactoryError::InsufficientInitialLiquidity));
}

fn with_creator_fee(fee: u32) -> Result<PoolPlan, FactoryError> {
    let mut params = default_pool_params();
    params.creator_fee_bps = fee;
    create(&setup_factory(), &params)
}

#[test]
fn test_boundary_creator_fee() {
    assert!(with_creator_fee(10).is_ok());
    assert_eq!(with_creator_fee(9), Err(FactoryError::InvalidCreatorFee));
    assert!(with_creator_fee(1000).is_ok());
    assert_eq!(with_creator_fee(1001), Err(FactoryError::InvalidCreatorFee));
}

fn with_lock(duration: u32) -> Result<PoolPlan, FactoryError> {
    let mut params = default_pool_params();
    params.lock_duration = duration;
    create(&setup_factory(), &params)
}

#[test]
fn test_boundary_lock_duration() {
    assert!(with_lock(0).is_ok());
    assert_eq!(with_lock(MIN_LOCK_DURATION - 1), Err(FactoryError::InvalidLockDuration));
    assert!(with_lock(MIN_LOCK_DURATION).is_ok());
}

fn with_ticks(fee_bps: u32, lower: i32, upper: i32) -> Result<PoolPlan, FactoryError> {
    let mut params = default_pool_params();
    params.fee_bps = fee_bps;
    params.lower_tick = lower;
    params.upper_tick = upper;
    create(&setup_factory(), &params)
}

#[test]
fn test_tick_spacing_all_tiers() {
    let tiers = setup_factory();
    assert_eq!(BelugaFactory::get_fee_tier(&tiers, 5).unwrap().tick_spacing, 10);
    assert!(with_ticks(5, -600, 600).is_ok());
    assert_eq!(with_ticks(5, -600, 605), Err(FactoryError::InvalidTickSpacing));

    assert_eq!(BelugaFactory::get_fee_tier(&tiers, 30).unwrap().tick_spacing, 60);
    assert!(with_ticks(30, -600, 600).is_ok());
    assert_eq!(with_ticks(30, -600, 650), Err(FactoryError::InvalidTickSpacing));

    assert_eq!(BelugaFactory::get_fee_tier(&tiers, 100).unwrap().tick_spacing, 200);
    assert!(with_ticks(100, -600, 600).is_ok());
    assert_eq!(with_ticks(100, -600, 700), Err(FactoryError::InvalidTickSpacing));
}

#[test]
fn test_extreme_tick_values() {
    let max_tick = 887272;
    let min_tick = -887272;
    // An ordered range passes the range rule (and meets the spacing rule next).
    assert_ne!(with_ticks(30, min_tick, max_tick), Err(FactoryError::InvalidTickRange));
    assert_eq!(with_ticks(30, 0, 0), Err(FactoryError::InvalidTickRange));
    assert_eq!(with_ticks(30, max_tick, min_tick), Err(FactoryError::InvalidTickRange));
}

fn with_price(price: u128) -> Result<PoolPlan, FactoryError> {
    let mut params = default_pool_params();
    params.initial_sqrt_price_x64 = price;
    create(&setup_factory(), &params)
}

#[test]
fn test_price_boundaries() {
    assert_eq!(with_price(0), Err(FactoryError::InvalidInitialPrice));
    assert!(with_price(1).is_ok());
    assert!(with_price(1u128 << 64).is_ok());
    assert!(with_price(u128::MAX - 1).is_ok());
}

#[test]
fn statistics_fee_tier_distribution() {
    let tiers = setup_factory();
    for tier in [5u32, 30, 100] {
        let t = BelugaFactory::get_fee_tier(&tiers, tier);
        assert!(t.is_some(), "Tier {} should be valid", tier);
        assert!(t.unwrap().tick_spacing > 0, "Tier {} should have tick spacing", tier);
    }
    let mut invalid_count = 0;
    for i in 1..=200u32 {
        if i != 5 && i != 30 && i != 100 {
            let mut params = default_pool_params();
            params.fee_bps = i;
            if create(&tiers, &params) == Err(FactoryError::InvalidFeeTier) {
                invalid_count += 1;
            }
        }
    }
    assert!(invalid_count >= 195, "Most random fee tiers should be invalid");
}

#[test]
fn statistics_creator_fee_range() {
    let valid_range = 10..=1000;
    let total_valid = valid_range.clone().filter(|f| with_creator_fee(*f).is_ok()).count();
    assert_eq!(total_valid, 991, "Should have 991 valid creator fee values");
    for i in 0..10 {
        assert_eq!(with_creator_fee(i), Err(FactoryError::InvalidCreatorFee));
    }
    for i in 1001..1100 {
        assert_eq!(with_creator_fee(i), Err(FactoryError::InvalidCreatorFee));
    }
}

// ------------------------------------------------------------
// Further rules
// ------------------------------------------------------------

#[test]
fn factory_create_pool_order_of_rules() {
    let tiers = setup_factory();
    let params = default_pool_params();
    assert_eq!(BelugaFactory::create_pool(false, false, true, false, &tiers, &params), Err(FactoryError::NotInitialized));
    assert_eq!(BelugaFactory::create_pool(true, true, true, false, &tiers, &params), Err(FactoryError::InvalidTokenPair));
    assert_eq!(BelugaFactory::create_pool(true, false, true, true, &tiers, &params), Err(FactoryError::PoolAlreadyExists));
    let mut disabled = setup_factory();
    BelugaFactory::set_fee_tier(&mut disabled, 30, 60, false).unwrap();
    assert_eq!(BelugaFactory::create_pool(true, false, true, false, &disabled, &params), Err(FactoryError::InvalidFeeTier));
}

#[test]
fn factory_amounts_follow_token_order() {
    let tiers = setup_factory();
    let mut params = default_pool_params();
    params.amount0_desired = 2_000_000;
    params.amount1_desired = 3_000_000;
    let plan = BelugaFactory::create_pool(true, false, false, false, &tiers, &params).unwrap();
    assert_eq!((plan.amount0, plan.amount1), (3_000_000, 2_000_000));
    assert_eq!(plan.tick_spacing, 60);
}

#[test]
fn factory_set_fee_tier_rejections() {
    let mut tiers = setup_factory();
    assert_eq!(BelugaFactory::set_fee_tier(&mut tiers, 50, 0, true), Err(FactoryError::InvalidTickSpacing));
    assert_eq!(BelugaFactory::set_fee_tier(&mut tiers, 50, -10, true), Err(FactoryError::InvalidTickSpacing));
    assert_eq!(BelugaFactory::set_fee_tier(&mut tiers, 0, 10, true), Err(FactoryError::InvalidFeeTier));
    assert_eq!(BelugaFactory::set_fee_tier(&mut tiers, 101, 10, true), Err(FactoryError::InvalidFeeTier));
    assert!(BelugaFactory::get_fee_tier(&tiers, 50).is_none());
    assert_eq!(BelugaFactory::initialize(true, &mut tiers), Err(FactoryError::AlreadyInitialized));
}

#[test]
fn factory_start_tick_matches_price() {
    // The starting tick is the tick whose price interval holds the price:
    // sqrt price 2^65 is price 4 = 1.0001^13863.x.
    assert_eq!(BelugaFactory::sqrt_price_to_tick(1u128 << 64), 0);
    assert_eq!(BelugaFactory::sqrt_price_to_tick(1u128 << 65), 13863);
    assert_eq!(BelugaFactory::sqrt_price_to_tick(3u128 << 64), 21973);
    assert_eq!(BelugaFactory::sqrt_price_to_tick(1u128 << 68), 55454);
    assert_eq!(BelugaFactory::sqrt_price_to_tick(1u128 << 62), -27728);
    assert_eq!(BelugaFactory::sqrt_price_to_tick(1), -873410);
    assert_eq!(BelugaFactory::sqrt_price_to_tick(0), -887272);
    assert_eq!(BelugaFactory::sqrt_price_to_tick(u128::MAX), 887272);
    let plan = create(&setup_factory(), &CreatePoolParams { initial_sqrt_price_x64: 1u128 << 65, ..default_pool_params() }).unwrap();
    assert_eq!(plan.current_tick, 13863);
}

#[test]
fn factory_lock_lifecycle() {
    let tiers = setup_factory();
    let params = default_pool_params();
    let plan = create(&tiers, &params).unwrap();
    assert_eq!(BelugaFactory::register_creator_lock(&plan, &params, 0, 100), Err(FactoryError::InsufficientInitialLiquidity));
    let lock = BelugaFactory::register_creator_lock(&plan, &params, 5_000, 100).unwrap();
    assert_eq!(lock.lock_end, 100 + 120_960);
    assert!(BelugaFactory::is_creator_fee_active(Some(lock)));
    assert_eq!(BelugaFactory::unlock_creator_liquidity(Some(lock), false, 200_000), Err(FactoryError::NotPoolCreator));
    assert_eq!(BelugaFactory::unlock_creator_liquidity(Some(lock), true, 1000), Err(FactoryError::LiquidityStillLocked));
    let (liquidity, unlocked) = BelugaFactory::unlock_creator_liquidity(Some(lock), true, 200_000).unwrap();
    assert_eq!(liquidity, 5_000);
    assert!(unlocked.is_unlocked && unlocked.fee_revoked);
    assert!(!BelugaFactory::is_creator_fee_active(Some(unlocked)));
    assert_eq!(BelugaFactory::unlock_creator_liquidity(Some(unlocked), true, 300_000), Err(FactoryError::CreatorFeeRevoked));
}

#[test]
fn factory_permanent_and_saturating_locks() {
    let tiers = setup_factory();
    let mut params = default_pool_params();
    params.lock_duration = 0;
    let plan = create(&tiers, &params).unwrap();
    let lock = BelugaFactory::register_creator_lock(&plan, &params, 1, 7).unwrap();
    assert_eq!(lock.lock_end, u32::MAX);
    assert_eq!(BelugaFactory::unlock_creator_liquidity(Some(lock), true, u32::MAX), Err(FactoryError::LiquidityStillLocked));

    params.lock_duration = 200_000;
    let plan = create(&tiers, &params).unwrap();
    let lock = BelugaFactory::register_creator_lock(&plan, &params, 1, u32::MAX - 10).unwrap();
    assert_eq!(lock.lock_end, u32::MAX);
}

#[test]
fn factory_error_codes() {
    assert_eq!(FactoryError::AlreadyInitialized.code(), 1);
    assert_eq!(FactoryError::InvalidTokenPair.code(), 11);
    assert_eq!(FactoryError::InsufficientInitialLiquidity.code(), 20);
    assert_eq!(FactoryError::CreatorLockNotFound.code(), 32);
    assert_eq!(FactoryError::Unauthorized.code(), 50);
}
