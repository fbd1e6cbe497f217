//! Properties of the factory's rules that span several calls.
use vstd::prelude::*;
use crate::factory::error::FactoryError;
use crate::factory::logic::{
    create_pool_outcome, creator_fee_active, creator_lock_outcome, set_fee_tier_outcome, tick_aligned, tiers_wf,
    unlock_outcome,
};
use crate::factory::types::{CreatePoolParams, CreatorLock, FeeTier};

verus! {

/// Unlocking revokes the creator fee for good: once an unlock succeeds the fee is
/// inactive, and every later unlock is refused as revoked.
pub proof fn lemma_unlock_revokes_for_good(lock: CreatorLock, ledger: u32, later_ledger: u32)
    requires
        unlock_outcome(Some(lock), true, ledger) is Ok,
    ensures
        ({
            let (_, unlocked) = unlock_outcome(Some(lock), true, ledger)->Ok_0;
            &&& !creator_fee_active(Some(unlocked))
            &&& unlock_outcome(Some(unlocked), true, later_ledger) == Err::<(i128, CreatorLock), FactoryError>(
                FactoryError::CreatorFeeRevoked)
        }),
{
}

/// A permanent lock never opens, whatever the ledger.
pub proof fn lemma_permanent_lock_never_opens(lock: CreatorLock, ledger: u32)
    requires
        lock.is_permanent,
        !lock.is_unlocked,
    ensures
        unlock_outcome(Some(lock), true, ledger) == Err::<(i128, CreatorLock), FactoryError>(
            FactoryError::LiquidityStillLocked),
{
}

/// The lock registered for a new pool keeps the creator fee active, and cannot
/// be opened before its end (never, if permanent).
pub proof fn lemma_new_lock_holds(plan: crate::factory::types::PoolPlan, params: CreatePoolParams, liquidity: i128, ledger: u32, later_ledger: u32)
    requires
        creator_lock_outcome(plan, params, liquidity, ledger) is Ok,
    ensures
        ({
            let lock = creator_lock_outcome(plan, params, liquidity, ledger)->Ok_0;
            &&& creator_fee_active(Some(lock))
            &&& lock.lock_start == ledger
            &&& lock.lock_end >= ledger
            &&& later_ledger < lock.lock_end ==> unlock_outcome(Some(lock), true, later_ledger) is Err
        }),
{
}

/// Setting a tier and reading it back gives the tier that was set; the table
/// stays well formed.
pub proof fn lemma_set_then_get_fee_tier(tiers: Map<u32, FeeTier>, fee_bps: u32, tick_spacing: i32, enabled: bool)
    requires
        tiers_wf(tiers),
        set_fee_tier_outcome(tiers, fee_bps, tick_spacing, enabled) is Ok,
    ensures
        ({
            let m = set_fee_tier_outcome(tiers, fee_bps, tick_spacing, enabled)->Ok_0;
            &&& m.contains_key(fee_bps)
            &&& m[fee_bps] == (FeeTier { fee_bps, tick_spacing, enabled })
            &&& tiers_wf(m)
        }),
{
}

/// An accepted pool plan uses the tier's positive spacing, with both position
/// ticks on it and in order, deposits at least the minimum of each token, and
/// starts the pool at the tick whose price interval contains its price.
pub proof fn lemma_plan_is_valid(
    initialized: bool,
    same_tokens: bool,
    a_before_b: bool,
    pool_exists: bool,
    tiers: Map<u32, FeeTier>,
    params: CreatePoolParams,
)
    requires
        tiers_wf(tiers),
        create_pool_outcome(initialized, same_tokens, a_before_b, pool_exists, tiers, params) is Ok,
    ensures
        ({
            let plan = create_pool_outcome(initialized, same_tokens, a_before_b, pool_exists, tiers, params)->Ok_0;
            &&& plan.tick_spacing > 0
            &&& plan.tick_spacing == tiers[params.fee_bps].tick_spacing
            &&& tiers[params.fee_bps].enabled
            &&& params.lower_tick < params.upper_tick
            &&& tick_aligned(params.lower_tick, plan.tick_spacing)
            &&& tick_aligned(params.upper_tick, plan.tick_spacing)
            &&& plan.amount0 >= crate::factory::logic::MIN_INITIAL_LIQUIDITY
            &&& plan.amount1 >= crate::factory::logic::MIN_INITIAL_LIQUIDITY
            &&& initialized && !same_tokens && !pool_exists
            &&& plan.current_tick == crate::math::tick_laws::tick_at_sqrt_price(params.initial_sqrt_price_x64)
            &&& crate::math::sqrt_price::sqrt_ratio_at_tick(crate::math::constants::MIN_TICK) <= params.initial_sqrt_price_x64
                ==> crate::math::sqrt_price::is_floor_tick(plan.current_tick as int, params.initial_sqrt_price_x64)
        }),
{
    crate::math::tick_laws::lemma_tick_at_sqrt_price(params.initial_sqrt_price_x64);
}

} // verus!
