use vstd::prelude::*;
use soroban_sdk::Env;
use crate::math::constants::{
    MAX_CREATOR_FEE_BPS, MAX_FEE_BPS, MAX_TICK, MIN_CREATOR_FEE_BPS, MIN_LIQUIDITY, MIN_SWAP_AMOUNT, MIN_TICK,
};
use crate::math::q64::{clip_i128, clip_u128, i128_to_u128_safe, sat_add_i128, sat_sub_i128};
use crate::math::liquidity::{
    amounts_for_liquidity, amounts_for_liquidity_ok, get_amounts_for_liquidity, get_liquidity_for_amounts,
    liquidity_for_amounts, liquidity_for_amounts_ok,
};
use crate::math::sqrt_price::{check_mul_q64_fits, get_sqrt_ratio_at_tick, sqrt_ratio_at_tick, tick_in_range};
use crate::math::{snap_tick_to_spacing, snapped_tick};
use crate::pool::error::PoolError;
use crate::pool::types::{CreatorFeesInfo, PoolConfig, PoolState};
use crate::swap::engine::{apply_crossings, apply_crossings_exec, exec_params, run_swap, swap_outcome, SwapParams, SwapState};
use crate::swap::types::{SwapError, SwapResult};
use crate::tick::types::{tick_of, TickInfo, TickTable};
use crate::tick::update::{tick_after_update, update_tick};
use crate::tick::fee_growth::{fee_growth_inside_of, get_fee_growth_inside};
use crate::position::types::{Position, PositionInfo};
use crate::position::fees::{calculate_pending_fees, pending_fee};
use crate::swap::engine::{preview_outcome, quote_outcome, slippage_bps, validate_and_preview_swap};
use crate::swap::types::{PreviewError, PreviewResult};
use crate::position::manager::{modify_position, position_after_update, update_position};

verus! {

/// The pool contract.
pub struct BelugaPool;

/// Converts a balance to a transfer amount, saturating at `i128::MAX`.
pub fn safe_u128_to_i128(value: u128) -> (r: i128)
    ensures
        r == clip_i128(value as int),
{
    if value > i128::MAX as u128 { i128::MAX } else { value as i128 }
}

/// Whether a pool state is usable: its tick spacing is positive.
pub open spec fn pool_wf(st: PoolState) -> bool {
    st.tick_spacing > 0
}

/// The state of a freshly initialized pool.
pub open spec fn initial_pool_state(sqrt_price_x64: u128, current_tick: i32, tick_spacing: i32) -> PoolState {
    PoolState {
        sqrt_price_x64,
        current_tick,
        liquidity: 0,
        tick_spacing,
        fee_growth_global_0: 0,
        fee_growth_global_1: 0,
        creator_fees_0: 0,
        creator_fees_1: 0,
    }
}

/// What initializing a pool yields: its configuration and state, or the first
/// rule the arguments break.
pub open spec fn initialize_outcome(
    already_initialized: bool,
    fee_bps: u32,
    creator_fee_bps: u32,
    sqrt_price_x64: u128,
    current_tick: i32,
    tick_spacing: i32,
) -> Result<(PoolConfig, PoolState), PoolError> {
    if already_initialized {
        Err(PoolError::AlreadyInitialized)
    } else if fee_bps == 0 || fee_bps > MAX_FEE_BPS {
        Err(PoolError::InvalidFee)
    } else if creator_fee_bps < MIN_CREATOR_FEE_BPS || creator_fee_bps > MAX_CREATOR_FEE_BPS {
        Err(PoolError::InvalidCreatorFee)
    } else if tick_spacing <= 0 {
        Err(PoolError::InvalidTickSpacing)
    } else {
        Ok((PoolConfig { fee_bps, creator_fee_bps }, initial_pool_state(sqrt_price_x64, current_tick, tick_spacing)))
    }
}

/// Whether a tick snapped down to the spacing still fits in `i32`.
pub open spec fn snap_ok(tick: i32, spacing: i32) -> bool {
    snapped_tick(tick as int, spacing as int) >= i32::MIN
}

/// A position's ticks snapped down to the pool's spacing.
pub open spec fn aligned_range_of(st: PoolState, lower_tick: i32, upper_tick: i32) -> Result<(i32, i32), PoolError> {
    if snap_ok(lower_tick, st.tick_spacing) && snap_ok(upper_tick, st.tick_spacing) {
        Ok((
            snapped_tick(lower_tick as int, st.tick_spacing as int) as i32,
            snapped_tick(upper_tick as int, st.tick_spacing as int) as i32,
        ))
    } else {
        Err(PoolError::ArithmeticOverflow)
    }
}

/// The creator's share of the trading fee in effect: the configured share when
/// the factory reports the creator fee active, nothing otherwise (also when the
/// factory could not be asked).
pub open spec fn active_creator_fee_bps(config: PoolConfig, factory_reply: Option<bool>) -> i128 {
    if factory_reply == Some(true) { config.creator_fee_bps as i128 } else { 0 }
}

/// Whether a withdrawal from a position is refused as locked: only the creator's
/// positions can be locked, and a factory that cannot be asked counts as a lock.
pub open spec fn position_locked(is_creator: bool, factory_reply: Option<bool>) -> bool {
    is_creator && factory_reply != Some(false)
}

/// The part of the pool state a swap works on.
pub open spec fn swap_state_of(st: PoolState) -> SwapState {
    SwapState {
        sqrt_price_x64: st.sqrt_price_x64,
        current_tick: st.current_tick,
        liquidity: st.liquidity,
        tick_spacing: st.tick_spacing,
        fee_growth_global_0: st.fee_growth_global_0,
        fee_growth_global_1: st.fee_growth_global_1,
    }
}

/// A balance credited with a fee (a negative fee credits nothing), saturating.
pub open spec fn credit(balance: u128, fee: i128) -> u128 {
    clip_u128(balance + (if fee <= 0 { 0 } else { fee as int }))
}

/// The pool after a swap: the market state the engine left, and the creator fee
/// credited in the input token.
pub open spec fn pool_after_swap(st: PoolState, ss: SwapState, creator_fee: i128, zero_for_one: bool) -> PoolState {
    PoolState {
        sqrt_price_x64: ss.sqrt_price_x64,
        current_tick: ss.current_tick,
        liquidity: ss.liquidity,
        fee_growth_global_0: ss.fee_growth_global_0,
        fee_growth_global_1: ss.fee_growth_global_1,
        creator_fees_0: if zero_for_one { credit(st.creator_fees_0, creator_fee) } else { st.creator_fees_0 },
        creator_fees_1: if zero_for_one { st.creator_fees_1 } else { credit(st.creator_fees_1, creator_fee) },
        ..st
    }
}

/// The engine parameters of a swap through the pool.
pub open spec fn pool_swap_params(config: PoolConfig, st: PoolState, zero_for_one: bool, sqrt_price_limit_x64: u128, factory_reply: Option<bool>) -> SwapParams {
    exec_params(swap_state_of(st), zero_for_one, sqrt_price_limit_x64, config.fee_bps as i128,
        active_creator_fee_bps(config, factory_reply))
}

/// What a swap through the pool yields: the result, the new state and the new
/// ticks, or why it is refused. `direction` is `Some(true)` when the input token
/// is token0, `Some(false)` for token1 and `None` for any other token.
pub open spec fn pool_swap_outcome(
    config: PoolConfig,
    st: PoolState,
    ticks: Map<i32, TickInfo>,
    direction: Option<bool>,
    amount_in: i128,
    amount_out_min: i128,
    sqrt_price_limit_x64: u128,
    factory_reply: Option<bool>,
) -> Result<(SwapResult, PoolState, Map<i32, TickInfo>), PoolError> {
    if amount_in <= 0 {
        Err(PoolError::AmountNotPositive)
    } else {
        match direction {
            None => Err(PoolError::InvalidToken),
            Some(zero_for_one) => {
                if amount_in < MIN_SWAP_AMOUNT {
                    Err(PoolError::Swap(SwapError::AmountTooSmall))
                } else if st.liquidity <= 0 {
                    Err(PoolError::Swap(SwapError::NoLiquidity))
                } else {
                    match swap_outcome(ticks, swap_state_of(st), amount_in,
                        pool_swap_params(config, st, zero_for_one, sqrt_price_limit_x64, factory_reply)) {
                        Err(e) => Err(PoolError::Swap(e)),
                        Ok((ss, ain, aout, cf, cs)) => {
                            if aout < amount_out_min {
                                Err(PoolError::SlippageExceeded)
                            } else {
                                Ok((
                                    SwapResult {
                                        amount_in: ain,
                                        amount_out: aout,
                                        current_tick: ss.current_tick,
                                        sqrt_price_x64: ss.sqrt_price_x64,
                                    },
                                    pool_after_swap(st, ss, cf, zero_for_one),
                                    apply_crossings(ticks, cs),
                                ))
                            }
                        },
                    }
                }
            },
        }
    }
}

/// The ticks after a position over `[lower, upper]` changes by `delta` at the
/// pool's current tick and fee growth.
pub open spec fn ticks_after_range_update(ticks: Map<i32, TickInfo>, st: PoolState, lower: i32, upper: i32, delta: i128) -> Map<i32, TickInfo> {
    let m1 = ticks.insert(lower, tick_after_update(tick_of(ticks, lower), lower, st.current_tick, delta,
        st.fee_growth_global_0, st.fee_growth_global_1, false));
    m1.insert(upper, tick_after_update(tick_of(m1, upper), upper, st.current_tick, delta,
        st.fee_growth_global_0, st.fee_growth_global_1, true))
}

/// Whether the current tick lies in `[lower, upper)`, where a position's
/// liquidity is active.
pub open spec fn in_range(st: PoolState, lower: i32, upper: i32) -> bool {
    st.current_tick >= lower && st.current_tick < upper
}

/// What adding liquidity yields: `(liquidity, amount0, amount1)`, the new state,
/// ticks and position, or the first rule the call breaks. Slippage is checked
/// only when a minimum is positive.
pub open spec fn add_liquidity_outcome(
    st: PoolState,
    ticks: Map<i32, TickInfo>,
    pos: Position,
    lower_tick: i32,
    upper_tick: i32,
    amount0_desired: i128,
    amount1_desired: i128,
    amount0_min: i128,
    amount1_min: i128,
) -> Result<(i128, i128, i128, PoolState, Map<i32, TickInfo>, Position), PoolError> {
    match aligned_range_of(st, lower_tick, upper_tick) {
        Err(e) => Err(e),
        Ok((lower, upper)) => {
            if lower >= upper {
                Err(PoolError::InvalidTickRange)
            } else if !(tick_in_range(lower as int) && tick_in_range(upper as int)) {
                Err(PoolError::TickOutOfRange)
            } else {
                let pl = sqrt_ratio_at_tick(lower);
                let pu = sqrt_ratio_at_tick(upper);
                if !liquidity_for_amounts_ok(amount0_desired, pl, pu, st.sqrt_price_x64) {
                    Err(PoolError::ArithmeticOverflow)
                } else {
                    let liquidity = liquidity_for_amounts(amount0_desired, amount1_desired, pl, pu, st.sqrt_price_x64);
                    if liquidity < MIN_LIQUIDITY {
                        Err(PoolError::LiquidityTooLow)
                    } else if !amounts_for_liquidity_ok(liquidity, pl, pu, st.sqrt_price_x64) {
                        Err(PoolError::ArithmeticOverflow)
                    } else {
                        let (amount0, amount1) = amounts_for_liquidity(liquidity, pl, pu, st.sqrt_price_x64);
                        if (amount0_min > 0 || amount1_min > 0) && (amount0 < amount0_min || amount1 < amount1_min) {
                            Err(PoolError::SlippageExceeded)
                        } else {
                            let m = ticks_after_range_update(ticks, st, lower, upper, liquidity);
                            let st2 = if in_range(st, lower, upper) {
                                PoolState { liquidity: clip_i128(st.liquidity + liquidity), ..st }
                            } else {
                                st
                            };
                            let (f0, f1) = fee_growth_inside_of(m, lower, upper, st.current_tick,
                                st.fee_growth_global_0, st.fee_growth_global_1);
                            let p2 = Position {
                                liquidity: clip_i128(pos.liquidity + liquidity),
                                ..position_after_update(pos, f0, f1)
                            };
                            Ok((liquidity, amount0, amount1, st2, m, p2))
                        }
                    }
                }
            }
        },
    }
}

/// What removing liquidity yields: `(amount0, amount1)` owed to the owner, the
/// new state, ticks and position, or the first rule the call breaks.
pub open spec fn remove_liquidity_outcome(
    st: PoolState,
    ticks: Map<i32, TickInfo>,
    pos: Position,
    lower_tick: i32,
    upper_tick: i32,
    liquidity: i128,
    amount0_min: i128,
    amount1_min: i128,
    locked: bool,
) -> Result<(i128, i128, PoolState, Map<i32, TickInfo>, Position), PoolError> {
    if liquidity <= 0 {
        Err(PoolError::InvalidLiquidityAmount)
    } else {
        match aligned_range_of(st, lower_tick, upper_tick) {
            Err(e) => Err(e),
            Ok((lower, upper)) => {
                if locked {
                    Err(PoolError::PositionLocked)
                } else if pos.liquidity < liquidity {
                    Err(PoolError::InsufficientLiquidity)
                } else if !(tick_in_range(lower as int) && tick_in_range(upper as int)) {
                    Err(PoolError::TickOutOfRange)
                } else {
                    let pl = sqrt_ratio_at_tick(lower);
                    let pu = sqrt_ratio_at_tick(upper);
                    if !amounts_for_liquidity_ok(liquidity, pl, pu, st.sqrt_price_x64) {
                        Err(PoolError::ArithmeticOverflow)
                    } else {
                        let (amount0, amount1) = amounts_for_liquidity(liquidity, pl, pu, st.sqrt_price_x64);
                        if amount0 < amount0_min || amount1 < amount1_min {
                            Err(PoolError::SlippageExceeded)
                        } else {
                            let (f0, f1) = fee_growth_inside_of(ticks, lower, upper, st.current_tick,
                                st.fee_growth_global_0, st.fee_growth_global_1);
                            let p1 = position_after_update(pos, f0, f1);
                            let p2 = Position { liquidity: clip_i128(p1.liquidity - liquidity), ..p1 };
                            let m = ticks_after_range_update(ticks, st, lower, upper, (-liquidity) as i128);
                            let st2 = if in_range(st, lower, upper) {
                                PoolState { liquidity: clip_i128(st.liquidity - liquidity), ..st }
                            } else {
                                st
                            };
                            Ok((amount0, amount1, st2, m, p2))
                        }
                    }
                }
            },
        }
    }
}

/// What collecting fees yields: the fees owed including those pending at the
/// current fee growth inside the range, and the position with nothing owed and
/// its checkpoints moved to that growth.
pub open spec fn collect_fees_outcome(
    st: PoolState,
    ticks: Map<i32, TickInfo>,
    pos: Position,
    lower_tick: i32,
    upper_tick: i32,
) -> Result<(u128, u128, Position), PoolError> {
    match aligned_range_of(st, lower_tick, upper_tick) {
        Err(e) => Err(e),
        Ok((lower, upper)) => {
            let (f0, f1) = fee_growth_inside_of(ticks, lower, upper, st.current_tick, st.fee_growth_global_0,
                st.fee_growth_global_1);
            let fees0 = clip_u128(pos.tokens_owed_0 + pending_fee(pos.liquidity, f0, pos.fee_growth_inside_last_0));
            let fees1 = clip_u128(pos.tokens_owed_1 + pending_fee(pos.liquidity, f1, pos.fee_growth_inside_last_1));
            Ok((
                fees0,
                fees1,
                Position {
                    tokens_owed_0: 0,
                    tokens_owed_1: 0,
                    fee_growth_inside_last_0: f0,
                    fee_growth_inside_last_1: f1,
                    ..pos
                },
            ))
        },
    }
}

/// What a position is worth over `[lower_tick, upper_tick]` (taken as given):
/// its liquidity, the amounts it represents at the current price and the fees
/// owed including pending ones.
pub open spec fn position_info_outcome(
    st: PoolState,
    ticks: Map<i32, TickInfo>,
    pos: Position,
    lower_tick: i32,
    upper_tick: i32,
) -> Result<PositionInfo, PoolError> {
    if !(tick_in_range(lower_tick as int) && tick_in_range(upper_tick as int)) {
        Err(PoolError::TickOutOfRange)
    } else {
        let pl = sqrt_ratio_at_tick(lower_tick);
        let pu = sqrt_ratio_at_tick(upper_tick);
        if !amounts_for_liquidity_ok(pos.liquidity, pl, pu, st.sqrt_price_x64) {
            Err(PoolError::ArithmeticOverflow)
        } else {
            let (amount0, amount1) = amounts_for_liquidity(pos.liquidity, pl, pu, st.sqrt_price_x64);
            let (f0, f1) = fee_growth_inside_of(ticks, lower_tick, upper_tick, st.current_tick,
                st.fee_growth_global_0, st.fee_growth_global_1);
            Ok(PositionInfo {
                liquidity: pos.liquidity,
                amount0,
                amount1,
                fees_owed_0: clip_u128(pos.tokens_owed_0 + pending_fee(pos.liquidity, f0, pos.fee_growth_inside_last_0)),
                fees_owed_1: clip_u128(pos.tokens_owed_1 + pending_fee(pos.liquidity, f1, pos.fee_growth_inside_last_1)),
            })
        }
    }
}

/// A successful preview.
pub open spec fn preview_valid(amount_in_used: i128, amount_out_expected: i128, fee_paid: i128, price_impact_bps: i128) -> PreviewResult {
    PreviewResult {
        amount_in_used,
        amount_out_expected,
        fee_paid,
        price_impact_bps,
        is_valid: true,
        error_message: None,
    }
}

/// A rejected preview.
pub open spec fn preview_invalid(error: PreviewError) -> PreviewResult {
    PreviewResult {
        amount_in_used: 0,
        amount_out_expected: 0,
        fee_paid: 0,
        price_impact_bps: 0,
        is_valid: false,
        error_message: Some(error),
    }
}

/// What a preview through the pool reports; the price impact is the difference
/// between input and output in basis points of the input. An error is a
/// condition under which the simulation itself aborts.
pub open spec fn pool_preview_outcome(
    config: PoolConfig,
    st: PoolState,
    ticks: Map<i32, TickInfo>,
    direction: Option<bool>,
    amount_in: i128,
    min_amount_out: i128,
    sqrt_price_limit_x64: u128,
) -> Result<PreviewResult, PoolError> {
    match direction {
        None => Ok(preview_invalid(PreviewError::BadToken)),
        Some(zero_for_one) => {
            if amount_in < MIN_SWAP_AMOUNT {
                Ok(preview_invalid(PreviewError::AmountLow))
            } else if st.liquidity <= 0 {
                Ok(preview_invalid(PreviewError::NoLiquidity))
            } else {
                match quote_outcome(ticks, swap_state_of(st), amount_in, zero_for_one, sqrt_price_limit_x64,
                    config.fee_bps as i128) {
                    Err(e) => Err(PoolError::Swap(e)),
                    Ok(q) => match preview_outcome(amount_in, min_amount_out, q) {
                        Err(pe) => Ok(preview_invalid(pe)),
                        Ok((used, out, fee, _price)) => Ok(preview_valid(used, out, fee,
                            slippage_bps(amount_in, used, out) as i128)),
                    },
                }
            }
        },
    }
}

/// Snaps a tick down to the spacing, or `None` when the result leaves `i32`.
fn checked_snap(tick: i32, spacing: i32) -> (r: Option<i32>)
    requires
        spacing > 0,
    ensures
        r == (if snap_ok(tick, spacing) { Some(snapped_tick(tick as int, spacing as int) as i32) } else { None::<i32> }),
{
    let rem = tick.checked_rem_euclid(spacing).unwrap();
    if (tick as i64) - (rem as i64) < (i32::MIN as i64) {
        None
    } else {
        Some(snap_tick_to_spacing(tick, spacing))
    }
}

/// The prices at the ends of a range, or `TickOutOfRange` when a tick lies
/// outside the supported range.
fn range_prices(lower: i32, upper: i32) -> (r: Result<(u128, u128), PoolError>)
    ensures
        r == (if tick_in_range(lower as int) && tick_in_range(upper as int) {
            Ok::<(u128, u128), PoolError>((sqrt_ratio_at_tick(lower), sqrt_ratio_at_tick(upper)))
        } else {
            Err::<(u128, u128), PoolError>(PoolError::TickOutOfRange)
        }),
{
    if lower < MIN_TICK || lower > MAX_TICK || upper < MIN_TICK || upper > MAX_TICK {
        return Err(PoolError::TickOutOfRange);
    }
    Ok((get_sqrt_ratio_at_tick(lower), get_sqrt_ratio_at_tick(upper)))
}

/// Whether the liquidity for two amounts can be computed without overflow.
fn liquidity_for_amounts_fits(amount0: i128, lower: u128, upper: u128, current: u128) -> (r: bool)
    ensures
        r == liquidity_for_amounts_ok(amount0, lower, upper, current),
{
    if lower >= upper || current >= upper {
        true
    } else if amount0 <= 0 {
        true
    } else if current <= lower {
        check_mul_q64_fits(upper, lower)
    } else {
        check_mul_q64_fits(upper, current)
    }
}

/// Whether the amounts of a liquidity can be computed without overflow.
fn amounts_for_liquidity_fits(liquidity: i128, lower: u128, upper: u128, current: u128) -> (r: bool)
    ensures
        r == amounts_for_liquidity_ok(liquidity, lower, upper, current),
{
    let m = if current >= lower { current } else { lower };
    let sp = if m <= upper { m } else { upper };
    if liquidity <= 0 || sp >= upper {
        true
    } else {
        check_mul_q64_fits(upper, sp)
    }
}

impl BelugaPool {
    /// Validates the arguments of a new pool and builds its configuration and
    /// state: a fee of 1 to 10000 bps, a creator share of 1 to 1000 bps and a
    /// positive tick spacing; a pool is initialized once.
    pub fn initialize(
        already_initialized: bool,
        fee_bps: u32,
        creator_fee_bps: u32,
        sqrt_price_x64: u128,
        current_tick: i32,
        tick_spacing: i32,
    ) -> (r: Result<(PoolConfig, PoolState), PoolError>)
        ensures
            r == initialize_outcome(already_initialized, fee_bps, creator_fee_bps, sqrt_price_x64, current_tick,
                tick_spacing),
            r matches Ok((_, st)) ==> pool_wf(st),
    {
        if already_initialized {
            return Err(PoolError::AlreadyInitialized);
        }
        if fee_bps == 0 || fee_bps > MAX_FEE_BPS {
            return Err(PoolError::InvalidFee);
        }
        if creator_fee_bps < MIN_CREATOR_FEE_BPS || creator_fee_bps > MAX_CREATOR_FEE_BPS {
            return Err(PoolError::InvalidCreatorFee);
        }
        if tick_spacing <= 0 {
            return Err(PoolError::InvalidTickSpacing);
        }
        let state = PoolState {
            sqrt_price_x64,
            current_tick,
            liquidity: 0,
            tick_spacing,
            fee_growth_global_0: 0,
            fee_growth_global_1: 0,
            creator_fees_0: 0,
            creator_fees_1: 0,
        };
        Ok((PoolConfig { fee_bps, creator_fee_bps }, state))
    }

    /// The swap direction for an input token: `true` (token0 in) for token0,
    /// `false` for token1; any other token is refused.
    pub fn get_swap_direction(is_token0: bool, is_token1: bool) -> (r: Result<bool, PoolError>)
        ensures
            is_token0 ==> r == Ok::<bool, PoolError>(true),
            !is_token0 && is_token1 ==> r == Ok::<bool, PoolError>(false),
            !is_token0 && !is_token1 ==> r == Err::<bool, PoolError>(PoolError::InvalidToken),
    {
        if is_token0 {
            Ok(true)
        } else if is_token1 {
            Ok(false)
        } else {
            Err(PoolError::InvalidToken)
        }
    }

    /// The creator fees accumulated by the pool.
    pub fn get_creator_fees(state: &PoolState) -> (r: CreatorFeesInfo)
        ensures
            r == (CreatorFeesInfo { fees_token0: state.creator_fees_0, fees_token1: state.creator_fees_1 }),
    {
        CreatorFeesInfo { fees_token0: state.creator_fees_0, fees_token1: state.creator_fees_1 }
    }

    /// Pays out the creator fees: returns them and resets them to zero.
    pub fn claim_creator_fees(state: &mut PoolState) -> (r: (u128, u128))
        ensures
            r == (old(state).creator_fees_0, old(state).creator_fees_1),
            *final(state) == (PoolState { creator_fees_0: 0, creator_fees_1: 0, ..*old(state) }),
    {
        let fees0 = state.creator_fees_0;
        let fees1 = state.creator_fees_1;
        state.creator_fees_0 = 0;
        state.creator_fees_1 = 0;
        (fees0, fees1)
    }

    /// The creator share in effect for a swap, given the factory's answer to
    /// whether the creator fee is active (`None` when the factory could not be
    /// asked).
    pub fn get_active_creator_fee_bps_safe(config: &PoolConfig, factory_reply: Option<bool>) -> (r: i128)
        ensures
            r == active_creator_fee_bps(*config, factory_reply),
    {
        match factory_reply {
            Some(true) => config.creator_fee_bps as i128,
            _ => 0,
        }
    }

    /// Whether a withdrawal is refused as locked, given whether the owner is the
    /// pool's creator and, for the creator, the factory's answer (`None` when the
    /// factory could not be asked).
    pub fn is_position_locked(is_creator: bool, factory_reply: Option<bool>) -> (r: bool)
        ensures
            r == position_locked(is_creator, factory_reply),
    {
        if !is_creator {
            return false;
        }
        match factory_reply {
            Some(locked) => locked,
            None => true,
        }
    }

    /// A position's ticks snapped down to the pool's spacing, the key under which
    /// the position is kept.
    pub fn aligned_range(state: &PoolState, lower_tick: i32, upper_tick: i32) -> (r: Result<(i32, i32), PoolError>)
        requires
            pool_wf(*state),
        ensures
            r == aligned_range_of(*state, lower_tick, upper_tick),
    {
        let lower = checked_snap(lower_tick, state.tick_spacing);
        let upper = checked_snap(upper_tick, state.tick_spacing);
        match (lower, upper) {
            (Some(l), Some(u)) => Ok((l, u)),
            _ => Err(PoolError::ArithmeticOverflow),
        }
    }
    /// Executes a swap: checks the input, runs the engine with the creator share
    /// the factory reports active, enforces the caller's minimum output, and on
    /// success moves the pool to the engine's state, credits the creator fee in
    /// the input token and applies the tick crossings. A refused swap changes
    /// nothing.
    pub fn swap(
        env: &Env,
        config: &PoolConfig,
        state: &mut PoolState,
        ticks: &mut TickTable,
        direction: Option<bool>,
        amount_in: i128,
        amount_out_min: i128,
        sqrt_price_limit_x64: u128,
        factory_reply: Option<bool>,
    ) -> (r: Result<SwapResult, PoolError>)
        requires
            pool_wf(*old(state)),
        ensures
            pool_wf(*final(state)),
            match pool_swap_outcome(*config, *old(state), old(ticks)@, direction, amount_in, amount_out_min,
                sqrt_price_limit_x64, factory_reply) {
                Ok((res, st, m)) => r == Ok::<SwapResult, PoolError>(res) && *final(state) == st && final(ticks)@ == m,
                Err(e) => r == Err::<SwapResult, PoolError>(e) && *final(state) == *old(state) && final(ticks)@ == old(ticks)@,
            },
    {
        if amount_in <= 0 {
            return Err(PoolError::AmountNotPositive);
        }
        let zero_for_one = match direction {
            Some(d) => d,
            None => {
                return Err(PoolError::InvalidToken);
            },
        };
        let creator_fee_bps = Self::get_active_creator_fee_bps_safe(config, factory_reply);
        if amount_in < MIN_SWAP_AMOUNT {
            return Err(PoolError::Swap(SwapError::AmountTooSmall));
        }
        if state.liquidity <= 0 {
            return Err(PoolError::Swap(SwapError::NoLiquidity));
        }
        let swap_state = SwapState {
            sqrt_price_x64: state.sqrt_price_x64,
            current_tick: state.current_tick,
            liquidity: state.liquidity,
            tick_spacing: state.tick_spacing,
            fee_growth_global_0: state.fee_growth_global_0,
            fee_growth_global_1: state.fee_growth_global_1,
        };
        let p = SwapParams {
            zero_for_one,
            sqrt_price_limit_x64,
            fee_bps: config.fee_bps as i128,
            creator_fee_bps,
            allow_panic: true,
            tick_spacing: state.tick_spacing,
        };
        let (new_state, amount_in_used, amount_out, creator_fee, crossings) = match run_swap(env, &swap_state, ticks,
            amount_in, p) {
            Ok(outcome) => outcome,
            Err(e) => {
                return Err(PoolError::Swap(e));
            },
        };
        if amount_out < amount_out_min {
            return Err(PoolError::SlippageExceeded);
        }
        apply_crossings_exec(env, ticks, &crossings);
        let fee = i128_to_u128_safe(creator_fee);
        state.sqrt_price_x64 = new_state.sqrt_price_x64;
        state.current_tick = new_state.current_tick;
        state.liquidity = new_state.liquidity;
        state.fee_growth_global_0 = new_state.fee_growth_global_0;
        state.fee_growth_global_1 = new_state.fee_growth_global_1;
        if zero_for_one {
            state.creator_fees_0 = state.creator_fees_0.saturating_add(fee);
        } else {
            state.creator_fees_1 = state.creator_fees_1.saturating_add(fee);
        }
        Ok(SwapResult {
            amount_in: amount_in_used,
            amount_out,
            current_tick: new_state.current_tick,
            sqrt_price_x64: new_state.sqrt_price_x64,
        })
    }
    fn internal_add_liquidity(
        env: &Env,
        state: &mut PoolState,
        ticks: &mut TickTable,
        pos: &mut Position,
        lower_tick: i32,
        upper_tick: i32,
        amount0_desired: i128,
        amount1_desired: i128,
        amount0_min: i128,
        amount1_min: i128,
    ) -> (r: Result<(i128, i128, i128), PoolError>)
        requires
            pool_wf(*old(state)),
        ensures
            pool_wf(*final(state)),
            match add_liquidity_outcome(*old(state), old(ticks)@, *old(pos), lower_tick, upper_tick, amount0_desired,
                amount1_desired, amount0_min, amount1_min) {
                Ok((l, a0, a1, st, m, p)) => r == Ok::<(i128, i128, i128), PoolError>((l, a0, a1)) && *final(state) == st
                    && final(ticks)@ == m && *final(pos) == p,
                Err(e) => r == Err::<(i128, i128, i128), PoolError>(e) && *final(state) == *old(state) && final(ticks)@
                    == old(ticks)@ && *final(pos) == *old(pos),
            },
    {
        let (lower, upper) = match Self::aligned_range(state, lower_tick, upper_tick) {
            Ok(range) => range,
            Err(e) => {
                return Err(e);
            },
        };
        if lower >= upper {
            return Err(PoolError::InvalidTickRange);
        }
        let (price_lower, price_upper) = match range_prices(lower, upper) {
            Ok(prices) => prices,
            Err(e) => {
                return Err(e);
            },
        };
        if !liquidity_for_amounts_fits(amount0_desired, price_lower, price_upper, state.sqrt_price_x64) {
            return Err(PoolError::ArithmeticOverflow);
        }
        let liquidity = get_liquidity_for_amounts(env, amount0_desired, amount1_desired, price_lower, price_upper,
            state.sqrt_price_x64);
        if liquidity < MIN_LIQUIDITY {
            return Err(PoolError::LiquidityTooLow);
        }
        if !amounts_for_liquidity_fits(liquidity, price_lower, price_upper, state.sqrt_price_x64) {
            return Err(PoolError::ArithmeticOverflow);
        }
        let (amount0, amount1) = get_amounts_for_liquidity(env, liquidity, price_lower, price_upper,
            state.sqrt_price_x64);
        if amount0_min > 0 || amount1_min > 0 {
            if amount0 < amount0_min || amount1 < amount1_min {
                return Err(PoolError::SlippageExceeded);
            }
        }
        update_tick(env, ticks, lower, state.current_tick, liquidity, state.fee_growth_global_0,
            state.fee_growth_global_1, false);
        update_tick(env, ticks, upper, state.current_tick, liquidity, state.fee_growth_global_0,
            state.fee_growth_global_1, true);
        if state.current_tick >= lower && state.current_tick < upper {
            state.liquidity = sat_add_i128(state.liquidity, liquidity);
        }
        let (inside_0, inside_1) = get_fee_growth_inside(env, ticks, lower, upper, state.current_tick,
            state.fee_growth_global_0, state.fee_growth_global_1);
        modify_position(env, pos, liquidity, inside_0, inside_1);
        Ok((liquidity, amount0, amount1))
    }

    /// Adds liquidity to a position over the given ticks, snapped to the spacing:
    /// the liquidity the desired amounts provide at the current price (at least
    /// the minimum liquidity), the amounts it takes, and the tick, pool and
    /// position updates. Returns `(liquidity, amount0, amount1)`; the owner pays
    /// the amounts. A refused call changes nothing.
    pub fn add_liquidity(
        env: &Env,
        state: &mut PoolState,
        ticks: &mut TickTable,
        pos: &mut Position,
        lower_tick: i32,
        upper_tick: i32,
        amount0_desired: i128,
        amount1_desired: i128,
        amount0_min: i128,
        amount1_min: i128,
    ) -> (r: Result<(i128, i128, i128), PoolError>)
        requires
            pool_wf(*old(state)),
        ensures
            pool_wf(*final(state)),
            match add_liquidity_outcome(*old(state), old(ticks)@, *old(pos), lower_tick, upper_tick, amount0_desired,
                amount1_desired, amount0_min, amount1_min) {
                Ok((l, a0, a1, st, m, p)) => r == Ok::<(i128, i128, i128), PoolError>((l, a0, a1)) && *final(state) == st
                    && final(ticks)@ == m && *final(pos) == p,
                Err(e) => r == Err::<(i128, i128, i128), PoolError>(e) && *final(state) == *old(state) && final(ticks)@
                    == old(ticks)@ && *final(pos) == *old(pos),
            },
    {
        Self::internal_add_liquidity(env, state, ticks, pos, lower_tick, upper_tick, amount0_desired, amount1_desired,
            amount0_min, amount1_min)
    }

    /// Mints liquidity for tokens already transferred to the pool (the factory's
    /// initial deposit): adding liquidity without a slippage check. Returns the
    /// liquidity.
    pub fn mint(
        env: &Env,
        state: &mut PoolState,
        ticks: &mut TickTable,
        pos: &mut Position,
        lower_tick: i32,
        upper_tick: i32,
        amount0_desired: i128,
        amount1_desired: i128,
    ) -> (r: Result<i128, PoolError>)
        requires
            pool_wf(*old(state)),
        ensures
            pool_wf(*final(state)),
            match add_liquidity_outcome(*old(state), old(ticks)@, *old(pos), lower_tick, upper_tick, amount0_desired,
                amount1_desired, 0, 0) {
                Ok((l, a0, a1, st, m, p)) => r == Ok::<i128, PoolError>(l) && *final(state) == st && final(ticks)@ == m
                    && *final(pos) == p,
                Err(e) => r == Err::<i128, PoolError>(e) && *final(state) == *old(state) && final(ticks)@ == old(ticks)@
                    && *final(pos) == *old(pos),
            },
    {
        match Self::internal_add_liquidity(env, state, ticks, pos, lower_tick, upper_tick, amount0_desired,
            amount1_desired, 0, 0) {
            Ok((liquidity, _amount0, _amount1)) => Ok(liquidity),
            Err(e) => Err(e),
        }
    }
    /// Removes liquidity from a position over the given ticks, snapped to the
    /// spacing: credits the position's pending fees, lowers its liquidity, the
    /// ticks' and (in range) the pool's, and returns the amounts owed to the
    /// owner, rounded down. `is_creator` tells whether the owner is the pool's
    /// creator and `factory_reply` what the factory answered to whether that
    /// position is locked. A refused call changes nothing.
    pub fn remove_liquidity(
        env: &Env,
        state: &mut PoolState,
        ticks: &mut TickTable,
        pos: &mut Position,
        lower_tick: i32,
        upper_tick: i32,
        liquidity: i128,
        amount0_min: i128,
        amount1_min: i128,
        is_creator: bool,
        factory_reply: Option<bool>,
    ) -> (r: Result<(i128, i128), PoolError>)
        requires
            pool_wf(*old(state)),
        ensures
            pool_wf(*final(state)),
            match remove_liquidity_outcome(*old(state), old(ticks)@, *old(pos), lower_tick, upper_tick, liquidity,
                amount0_min, amount1_min, position_locked(is_creator, factory_reply)) {
                Ok((a0, a1, st, m, p)) => r == Ok::<(i128, i128), PoolError>((a0, a1)) && *final(state) == st
                    && final(ticks)@ == m && *final(pos) == p,
                Err(e) => r == Err::<(i128, i128), PoolError>(e) && *final(state) == *old(state) && final(ticks)@
                    == old(ticks)@ && *final(pos) == *old(pos),
            },
    {
        if liquidity <= 0 {
            return Err(PoolError::InvalidLiquidityAmount);
        }
        let (lower, upper) = match Self::aligned_range(state, lower_tick, upper_tick) {
            Ok(range) => range,
            Err(e) => {
                return Err(e);
            },
        };
        if Self::is_position_locked(is_creator, factory_reply) {
            return Err(PoolError::PositionLocked);
        }
        if pos.liquidity < liquidity {
            return Err(PoolError::InsufficientLiquidity);
        }
        let (price_lower, price_upper) = match range_prices(lower, upper) {
            Ok(prices) => prices,
            Err(e) => {
                return Err(e);
            },
        };
        if !amounts_for_liquidity_fits(liquidity, price_lower, price_upper, state.sqrt_price_x64) {
            return Err(PoolError::ArithmeticOverflow);
        }
        let (amount0, amount1) = get_amounts_for_liquidity(env, liquidity, price_lower, price_upper,
            state.sqrt_price_x64);
        if amount0 < amount0_min || amount1 < amount1_min {
            return Err(PoolError::SlippageExceeded);
        }
        let (inside_0, inside_1) = get_fee_growth_inside(env, ticks, lower, upper, state.current_tick,
            state.fee_growth_global_0, state.fee_growth_global_1);
        update_position(env, pos, inside_0, inside_1);
        pos.liquidity = sat_sub_i128(pos.liquidity, liquidity);
        update_tick(env, ticks, lower, state.current_tick, -liquidity, state.fee_growth_global_0,
            state.fee_growth_global_1, false);
        update_tick(env, ticks, upper, state.current_tick, -liquidity, state.fee_growth_global_0,
            state.fee_growth_global_1, true);
        if state.current_tick >= lower && state.current_tick < upper {
            state.liquidity = sat_sub_i128(state.liquidity, liquidity);
        }
        Ok((amount0, amount1))
    }

    /// Collects a position's fees: everything owed plus what is pending at the
    /// current fee growth inside its range (saturating). The position is left
    /// owing nothing, its checkpoints at the current growth.
    pub fn collect_fees(
        env: &Env,
        state: &PoolState,
        ticks: &TickTable,
        pos: &mut Position,
        lower_tick: i32,
        upper_tick: i32,
    ) -> (r: Result<(u128, u128), PoolError>)
        requires
            pool_wf(*state),
        ensures
            match collect_fees_outcome(*state, ticks@, *old(pos), lower_tick, upper_tick) {
                Ok((f0, f1, p)) => r == Ok::<(u128, u128), PoolError>((f0, f1)) && *final(pos) == p,
                Err(e) => r == Err::<(u128, u128), PoolError>(e) && *final(pos) == *old(pos),
            },
    {
        let (lower, upper) = match Self::aligned_range(state, lower_tick, upper_tick) {
            Ok(range) => range,
            Err(e) => {
                return Err(e);
            },
        };
        let (inside_0, inside_1) = get_fee_growth_inside(env, ticks, lower, upper, state.current_tick,
            state.fee_growth_global_0, state.fee_growth_global_1);
        let (pending0, pending1) = calculate_pending_fees(env, pos, inside_0, inside_1);
        let fees0 = pos.tokens_owed_0.saturating_add(pending0);
        let fees1 = pos.tokens_owed_1.saturating_add(pending1);
        pos.tokens_owed_0 = 0;
        pos.tokens_owed_1 = 0;
        pos.fee_growth_inside_last_0 = inside_0;
        pos.fee_growth_inside_last_1 = inside_1;
        Ok((fees0, fees1))
    }

    /// Reports a position over `[lower_tick, upper_tick]` as given (not snapped):
    /// its liquidity, the amounts it represents at the current price, and the
    /// fees owed including pending ones.
    pub fn get_position(
        env: &Env,
        state: &PoolState,
        ticks: &TickTable,
        pos: &Position,
        lower_tick: i32,
        upper_tick: i32,
    ) -> (r: Result<PositionInfo, PoolError>)
        ensures
            r == position_info_outcome(*state, ticks@, *pos, lower_tick, upper_tick),
    {
        let (price_lower, price_upper) = match range_prices(lower_tick, upper_tick) {
            Ok(prices) => prices,
            Err(e) => {
                return Err(e);
            },
        };
        if !amounts_for_liquidity_fits(pos.liquidity, price_lower, price_upper, state.sqrt_price_x64) {
            return Err(PoolError::ArithmeticOverflow);
        }
        let (amount0, amount1) = get_amounts_for_liquidity(env, pos.liquidity, price_lower, price_upper,
            state.sqrt_price_x64);
        let (inside_0, inside_1) = get_fee_growth_inside(env, ticks, lower_tick, upper_tick, state.current_tick,
            state.fee_growth_global_0, state.fee_growth_global_1);
        let (pending0, pending1) = calculate_pending_fees(env, pos, inside_0, inside_1);
        Ok(PositionInfo {
            liquidity: pos.liquidity,
            amount0,
            amount1,
            fees_owed_0: pos.tokens_owed_0.saturating_add(pending0),
            fees_owed_1: pos.tokens_owed_1.saturating_add(pending1),
        })
    }

    /// Previews a swap without executing it. An input token that is not one of
    /// the pool's (`direction` is `None`) gives a rejected preview.
    pub fn preview_swap(
        env: &Env,
        config: &PoolConfig,
        state: &PoolState,
        ticks: &TickTable,
        direction: Option<bool>,
        amount_in: i128,
        min_amount_out: i128,
        sqrt_price_limit_x64: u128,
    ) -> (r: Result<PreviewResult, PoolError>)
        ensures
            r == pool_preview_outcome(*config, *state, ticks@, direction, amount_in, min_amount_out,
                sqrt_price_limit_x64),
    {
        let zero_for_one = match direction {
            Some(d) => d,
            None => {
                return Ok(PreviewResult::invalid(PreviewError::BadToken));
            },
        };
        let swap_state = SwapState {
            sqrt_price_x64: state.sqrt_price_x64,
            current_tick: state.current_tick,
            liquidity: state.liquidity,
            tick_spacing: state.tick_spacing,
            fee_growth_global_0: state.fee_growth_global_0,
            fee_growth_global_1: state.fee_growth_global_1,
        };
        match validate_and_preview_swap(env, &swap_state, ticks, amount_in, min_amount_out, zero_for_one,
            sqrt_price_limit_x64, config.fee_bps as i128) {
            Err(e) => Err(PoolError::Swap(e)),
            Ok(Err(pe)) => Ok(PreviewResult::invalid(pe)),
            Ok(Ok((amount_in_used, amount_out, fee_paid, _final_price))) => {
                let impact = crate::swap::engine::compute_slippage_bps(amount_in, amount_in_used, amount_out);
                Ok(PreviewResult::valid(amount_in_used, amount_out, fee_paid, impact))
            },
        }
    }
}

} // verus!
