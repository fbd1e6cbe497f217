use vstd::prelude::*;
use crate::factory::error::FactoryError;
use crate::factory::types::{CreatePoolParams, CreatorLock, FeeTier, FeeTierTable, PoolPlan};
use crate::math::constants::MIN_TICK;
use crate::math::sqrt_price::{get_tick_at_sqrt_ratio, is_floor_tick, sqrt_ratio_at_tick};
use crate::math::tick_laws::tick_at_sqrt_price;

verus! {

/// Shortest lock a creator may choose, in ledgers (about seven days).
pub const MIN_LOCK_DURATION: u32 = 120960u32;

/// Smallest initial deposit of each token.
pub const MIN_INITIAL_LIQUIDITY: i128 = 1000000i128;

/// Largest fee a tier may charge, in basis points.
pub const MAX_TIER_FEE_BPS: u32 = 100u32;

/// Smallest creator share a pool may be created with, in basis points.
pub const MIN_POOL_CREATOR_FEE_BPS: u32 = 10u32;

/// Largest creator share a pool may be created with, in basis points.
pub const MAX_POOL_CREATOR_FEE_BPS: u32 = 1000u32;

/// The factory contract.
pub struct BelugaFactory;

/// Whether every tier is filed under its own fee and has a positive spacing.
pub open spec fn tiers_wf(tiers: Map<u32, FeeTier>) -> bool {
    forall|f: u32| #[trigger] tiers.contains_key(f) ==> tiers[f].fee_bps == f && tiers[f].tick_spacing > 0
}

/// The standard tiers: 5 bps with spacing 10, 30 bps with spacing 60 and
/// 100 bps with spacing 200, all enabled.
pub open spec fn with_default_tiers(tiers: Map<u32, FeeTier>) -> Map<u32, FeeTier> {
    tiers.insert(5, FeeTier { fee_bps: 5, tick_spacing: 10, enabled: true })
        .insert(30, FeeTier { fee_bps: 30, tick_spacing: 60, enabled: true })
        .insert(100, FeeTier { fee_bps: 100, tick_spacing: 200, enabled: true })
}

/// What setting a tier does: the tier table after the change, or the first rule
/// the arguments break (a positive spacing, a fee of 1 to 100 bps).
pub open spec fn set_fee_tier_outcome(tiers: Map<u32, FeeTier>, fee_bps: u32, tick_spacing: i32, enabled: bool) -> Result<Map<u32, FeeTier>, FactoryError> {
    if tick_spacing <= 0 {
        Err(FactoryError::InvalidTickSpacing)
    } else if fee_bps == 0 || fee_bps > MAX_TIER_FEE_BPS {
        Err(FactoryError::InvalidFeeTier)
    } else {
        Ok(tiers.insert(fee_bps, FeeTier { fee_bps, tick_spacing, enabled }))
    }
}

/// Whether a tick is a multiple of a positive spacing.
pub open spec fn tick_aligned(tick: i32, spacing: i32) -> bool {
    (tick as int) % (spacing as int) == 0
}

/// What a pool creation request yields: the plan, or the first rule it breaks.
/// `same_tokens` tells whether both tokens are the same, `a_before_b` whether
/// the first token sorts first (the amounts follow the tokens into sorted order),
/// and `pool_exists` whether a pool of that pair and fee is registered.
pub open spec fn create_pool_outcome(
    initialized: bool,
    same_tokens: bool,
    a_before_b: bool,
    pool_exists: bool,
    tiers: Map<u32, FeeTier>,
    params: CreatePoolParams,
) -> Result<PoolPlan, FactoryError> {
    if !initialized {
        Err(FactoryError::NotInitialized)
    } else if same_tokens {
        Err(FactoryError::InvalidTokenPair)
    } else if pool_exists {
        Err(FactoryError::PoolAlreadyExists)
    } else if !(tiers.contains_key(params.fee_bps) && tiers[params.fee_bps].enabled) {
        Err(FactoryError::InvalidFeeTier)
    } else {
        let spacing = tiers[params.fee_bps].tick_spacing;
        let (amount0, amount1) = if a_before_b {
            (params.amount0_desired, params.amount1_desired)
        } else {
            (params.amount1_desired, params.amount0_desired)
        };
        if params.lower_tick >= params.upper_tick {
            Err(FactoryError::InvalidTickRange)
        } else if !tick_aligned(params.lower_tick, spacing) || !tick_aligned(params.upper_tick, spacing) {
            Err(FactoryError::InvalidTickSpacing)
        } else if amount0 < MIN_INITIAL_LIQUIDITY || amount1 < MIN_INITIAL_LIQUIDITY {
            Err(FactoryError::InsufficientInitialLiquidity)
        } else if params.lock_duration != 0 && params.lock_duration < MIN_LOCK_DURATION {
            Err(FactoryError::InvalidLockDuration)
        } else if params.creator_fee_bps < MIN_POOL_CREATOR_FEE_BPS || params.creator_fee_bps > MAX_POOL_CREATOR_FEE_BPS {
            Err(FactoryError::InvalidCreatorFee)
        } else if params.initial_sqrt_price_x64 == 0 {
            Err(FactoryError::InvalidInitialPrice)
        } else {
            Ok(PoolPlan {
                amount0,
                amount1,
                tick_spacing: spacing,
                current_tick: tick_at_sqrt_price(params.initial_sqrt_price_x64),
                is_permanent: params.lock_duration == 0,
            })
        }
    }
}

/// The creator's lock after the initial deposit minted `liquidity` at ledger
/// `current_ledger`; a deposit that minted nothing is refused.
pub open spec fn creator_lock_outcome(plan: PoolPlan, params: CreatePoolParams, liquidity: i128, current_ledger: u32) -> Result<CreatorLock, FactoryError> {
    if liquidity <= 0 {
        Err(FactoryError::InsufficientInitialLiquidity)
    } else {
        Ok(CreatorLock {
            liquidity,
            lower_tick: params.lower_tick,
            upper_tick: params.upper_tick,
            lock_start: current_ledger,
            lock_end: if plan.is_permanent {
                u32::MAX
            } else if current_ledger + params.lock_duration > u32::MAX {
                u32::MAX
            } else {
                (current_ledger + params.lock_duration) as u32
            },
            is_permanent: plan.is_permanent,
            is_unlocked: false,
            fee_revoked: false,
        })
    }
}

/// What unlocking yields: the liquidity released and the lock, now unlocked and
/// with the creator fee revoked for good; or why the lock still holds.
pub open spec fn unlock_outcome(lock: Option<CreatorLock>, is_lock_creator: bool, current_ledger: u32) -> Result<(i128, CreatorLock), FactoryError> {
    match lock {
        None => Err(FactoryError::CreatorLockNotFound),
        Some(l) => {
            if !is_lock_creator {
                Err(FactoryError::NotPoolCreator)
            } else if l.is_unlocked {
                Err(FactoryError::CreatorFeeRevoked)
            } else if l.is_permanent {
                Err(FactoryError::LiquidityStillLocked)
            } else if current_ledger < l.lock_end {
                Err(FactoryError::LiquidityStillLocked)
            } else {
                Ok((l.liquidity, CreatorLock { is_unlocked: true, fee_revoked: true, ..l }))
            }
        },
    }
}

/// Whether a pool's creator still earns the creator fee: a lock exists and the
/// fee was not revoked.
pub open spec fn creator_fee_active(lock: Option<CreatorLock>) -> bool {
    match lock {
        Some(l) => !l.fee_revoked,
        None => false,
    }
}

impl BelugaFactory {
    /// Records the standard fee tiers.
    fn init_fee_tiers(tiers: &mut FeeTierTable)
        ensures
            final(tiers)@ == with_default_tiers(old(tiers)@),
    {
        tiers.write(5, FeeTier { fee_bps: 5, tick_spacing: 10, enabled: true });
        tiers.write(30, FeeTier { fee_bps: 30, tick_spacing: 60, enabled: true });
        tiers.write(100, FeeTier { fee_bps: 100, tick_spacing: 200, enabled: true });
    }

    /// Initializes the factory once, recording the standard fee tiers.
    pub fn initialize(already_initialized: bool, tiers: &mut FeeTierTable) -> (r: Result<(), FactoryError>)
        ensures
            already_initialized ==> r == Err::<(), FactoryError>(FactoryError::AlreadyInitialized) && final(tiers)@
                == old(tiers)@,
            !already_initialized ==> r == Ok::<(), FactoryError>(()) && final(tiers)@ == with_default_tiers(old(tiers)@),
            tiers_wf(old(tiers)@) ==> tiers_wf(final(tiers)@),
    {
        if already_initialized {
            return Err(FactoryError::AlreadyInitialized);
        }
        Self::init_fee_tiers(tiers);
        Ok(())
    }

    /// Adds or changes a fee tier: a positive spacing and a fee of 1 to 100 bps.
    pub fn set_fee_tier(tiers: &mut FeeTierTable, fee_bps: u32, tick_spacing: i32, enabled: bool) -> (r: Result<(), FactoryError>)
        ensures
            match set_fee_tier_outcome(old(tiers)@, fee_bps, tick_spacing, enabled) {
                Ok(m) => r == Ok::<(), FactoryError>(()) && final(tiers)@ == m,
                Err(e) => r == Err::<(), FactoryError>(e) && final(tiers)@ == old(tiers)@,
            },
            tiers_wf(old(tiers)@) ==> tiers_wf(final(tiers)@),
    {
        if tick_spacing <= 0 {
            return Err(FactoryError::InvalidTickSpacing);
        }
        if fee_bps == 0 || fee_bps > MAX_TIER_FEE_BPS {
            return Err(FactoryError::InvalidFeeTier);
        }
        tiers.write(fee_bps, FeeTier { fee_bps, tick_spacing, enabled });
        Ok(())
    }

    /// The tier of a fee, if there is one.
    pub fn get_fee_tier(tiers: &FeeTierTable, fee_bps: u32) -> (r: Option<FeeTier>)
        ensures
            r == (if tiers@.contains_key(fee_bps) { Some(tiers@[fee_bps]) } else { None::<FeeTier> }),
    {
        tiers.read(fee_bps)
    }

    /// A pool's starting tick: the tick whose price interval contains the
    /// initial square-root price (`price = 1.0001^tick`).
    pub fn sqrt_price_to_tick(sqrt_price_x64: u128) -> (r: i32)
        ensures
            r == tick_at_sqrt_price(sqrt_price_x64),
            sqrt_ratio_at_tick(MIN_TICK) <= sqrt_price_x64 ==> is_floor_tick(r as int, sqrt_price_x64),
    {
        get_tick_at_sqrt_ratio(sqrt_price_x64)
    }

    /// Whether a tick is a multiple of a positive spacing.
    fn is_tick_aligned(tick: i32, spacing: i32) -> (r: bool)
        requires
            spacing > 0,
        ensures
            r == tick_aligned(tick, spacing),
    {
        tick.checked_rem_euclid(spacing).unwrap() == 0
    }

    /// Checks a pool creation request in the factory's order and, when it is
    /// accepted, plans the pool: the deposit in sorted token order, the tier's
    /// spacing, the starting tick and whether the creator's lock is permanent.
    /// `same_tokens`, `a_before_b` and `pool_exists` describe the token pair (see
    /// [`create_pool_outcome`]).
    pub fn create_pool(
        initialized: bool,
        same_tokens: bool,
        a_before_b: bool,
        pool_exists: bool,
        tiers: &FeeTierTable,
        params: &CreatePoolParams,
    ) -> (r: Result<PoolPlan, FactoryError>)
        requires
            tiers_wf(tiers@),
        ensures
            r == create_pool_outcome(initialized, same_tokens, a_before_b, pool_exists, tiers@, *params),
            r is Ok && sqrt_ratio_at_tick(MIN_TICK) <= params.initial_sqrt_price_x64 ==> is_floor_tick(
                r->Ok_0.current_tick as int, params.initial_sqrt_price_x64),
    {
        if !initialized {
            return Err(FactoryError::NotInitialized);
        }
        if same_tokens {
            return Err(FactoryError::InvalidTokenPair);
        }
        let (amount0, amount1) = if a_before_b {
            (params.amount0_desired, params.amount1_desired)
        } else {
            (params.amount1_desired, params.amount0_desired)
        };
        if pool_exists {
            return Err(FactoryError::PoolAlreadyExists);
        }
        let tier = match tiers.read(params.fee_bps) {
            Some(t) => {
                if !t.enabled {
                    return Err(FactoryError::InvalidFeeTier);
                }
                t
            },
            None => {
                return Err(FactoryError::InvalidFeeTier);
            },
        };
        let tick_spacing = tier.tick_spacing;
        if params.lower_tick >= params.upper_tick {
            return Err(FactoryError::InvalidTickRange);
        }
        if !Self::is_tick_aligned(params.lower_tick, tick_spacing) || !Self::is_tick_aligned(params.upper_tick,
            tick_spacing) {
            return Err(FactoryError::InvalidTickSpacing);
        }
        if amount0 < MIN_INITIAL_LIQUIDITY || amount1 < MIN_INITIAL_LIQUIDITY {
            return Err(FactoryError::InsufficientInitialLiquidity);
        }
        let is_permanent = params.lock_duration == 0;
        if !is_permanent && params.lock_duration < MIN_LOCK_DURATION {
            return Err(FactoryError::InvalidLockDuration);
        }
        if params.creator_fee_bps < MIN_POOL_CREATOR_FEE_BPS || params.creator_fee_bps > MAX_POOL_CREATOR_FEE_BPS {
            return Err(FactoryError::InvalidCreatorFee);
        }
        if params.initial_sqrt_price_x64 == 0 {
            return Err(FactoryError::InvalidInitialPrice);
        }
        let current_tick = Self::sqrt_price_to_tick(params.initial_sqrt_price_x64);
        Ok(PoolPlan { amount0, amount1, tick_spacing, current_tick, is_permanent })
    }

    /// The creator's lock once the initial deposit minted `liquidity` at ledger
    /// `current_ledger`: it ends after the chosen duration (saturating), or never
    /// for a permanent lock. A deposit that minted nothing is refused.
    pub fn register_creator_lock(plan: &PoolPlan, params: &CreatePoolParams, liquidity: i128, current_ledger: u32) -> (r: Result<CreatorLock, FactoryError>)
        ensures
            r == creator_lock_outcome(*plan, *params, liquidity, current_ledger),
    {
        if liquidity <= 0 {
            return Err(FactoryError::InsufficientInitialLiquidity);
        }
        let lock_end = if plan.is_permanent {
            u32::MAX
        } else {
            current_ledger.saturating_add(params.lock_duration)
        };
        Ok(CreatorLock {
            liquidity,
            lower_tick: params.lower_tick,
            upper_tick: params.upper_tick,
            lock_start: current_ledger,
            lock_end,
            is_permanent: plan.is_permanent,
            is_unlocked: false,
            fee_revoked: false,
        })
    }

    /// Unlocks the creator's liquidity once its lock has ended, revoking the
    /// creator fee for good. Returns the liquidity released and the updated lock.
    /// `is_lock_creator` tells whether the caller is the lock's creator.
    pub fn unlock_creator_liquidity(lock: Option<CreatorLock>, is_lock_creator: bool, current_ledger: u32) -> (r: Result<(i128, CreatorLock), FactoryError>)
        ensures
            r == unlock_outcome(lock, is_lock_creator, current_ledger),
    {
        let l = match lock {
            Some(l) => l,
            None => {
                return Err(FactoryError::CreatorLockNotFound);
            },
        };
        if !is_lock_creator {
            return Err(FactoryError::NotPoolCreator);
        }
        if l.is_unlocked {
            return Err(FactoryError::CreatorFeeRevoked);
        }
        if l.is_permanent {
            return Err(FactoryError::LiquidityStillLocked);
        }
        if current_ledger < l.lock_end {
            return Err(FactoryError::LiquidityStillLocked);
        }
        Ok((l.liquidity, CreatorLock { is_unlocked: true, fee_revoked: true, ..l }))
    }

    /// Whether a pool's creator still earns the creator fee.
    pub fn is_creator_fee_active(lock: Option<CreatorLock>) -> (r: bool)
        ensures
            r == creator_fee_active(lock),
    {
        match lock {
            Some(l) => !l.fee_revoked,
            None => false,
        }
    }
}

} // verus!
