//! The swap engine: walks the price across initialized ticks, step by step,
//! charging the fee on each step and crediting it to the liquidity in range.
use vstd::prelude::*;
use soroban_sdk::Env;
use crate::math::constants::{MAX_SLIPPAGE_BPS, MAX_SWAP_ITERATIONS, MAX_TICK, MIN_OUTPUT_AMOUNT, MIN_SWAP_AMOUNT, MIN_TICK};
use crate::math::q64::{clip_i128, div_q64, div_q64_spec, sat_add_i128, sat_mul_i128, sat_sub_i128, wrap_add_u128};
use crate::math::sqrt_price::{
    get_sqrt_ratio_at_tick, sqrt_ratio_at_tick, swap_step_ok, swap_step_with_target, tick_in_range,
    try_compute_swap_step_with_target,
};
use crate::tick::types::{tick_of, TickInfo, TickTable};
use crate::tick::update::{
    check_next_tick_search, cross_tick, find_next_initialized_tick, next_initialized_tick, next_tick_search_ok,
    tick_active, tick_after_cross,
};
use crate::swap::types::{PreviewError, SwapError};

verus! {

/// The pool state a swap works on.
#[derive(Clone, Copy, Debug)]
pub struct SwapState {
    pub sqrt_price_x64: u128,
    pub current_tick: i32,
    pub liquidity: i128,
    pub tick_spacing: i32,
    pub fee_growth_global_0: u128,
    pub fee_growth_global_1: u128,
}

/// The fixed inputs of a swap run.
#[derive(Clone, Copy, Debug)]
pub struct SwapParams {
    pub zero_for_one: bool,
    /// The caller's price limit; zero for none.
    pub sqrt_price_limit_x64: u128,
    pub fee_bps: i128,
    pub creator_fee_bps: i128,
    /// Whether an invalid fee configuration aborts the swap (otherwise the run stops).
    pub allow_panic: bool,
    pub tick_spacing: i32,
}

/// The evolving state of a swap run.
#[derive(Clone, Copy, Debug)]
pub struct StepState {
    pub amount_remaining: i128,
    pub amount_out_total: i128,
    pub total_creator_fee: i128,
    pub sqrt_price: u128,
    pub liquidity: i128,
    pub current_tick: i32,
    pub fee_growth_global_0: u128,
    pub fee_growth_global_1: u128,
}

/// A tick crossed by a swap, with the global fee growth at the crossing.
#[derive(Clone, Copy, Debug)]
pub struct Crossing {
    pub tick: i32,
    pub fee_growth_global_0: u128,
    pub fee_growth_global_1: u128,
}

/// What one step of a swap run does.
#[derive(Clone, Copy, Debug)]
pub enum StepOutcome {
    /// The run goes on from the new state, having crossed a tick or not.
    Continue(StepState, Option<Crossing>),
    /// The run ends in this state.
    Stop(StepState),
    /// The swap is aborted.
    Fail(SwapError),
}

/// The price limit in effect: the caller's, or the extreme in the swap direction.
pub open spec fn effective_limit(p: SwapParams) -> u128 {
    if p.sqrt_price_limit_x64 == 0 {
        if p.zero_for_one { 100 } else { (u128::MAX - 1000) as u128 }
    } else {
        p.sqrt_price_limit_x64
    }
}

/// Truncating division (rounding towards zero) by a positive divisor.
pub open spec fn trunc_div(x: int, d: int) -> int {
    if x >= 0 { x / d } else { -((-x) / d) }
}

/// The fee charged on a swap step. A step that used all the input available
/// after the fee reservation pays the rest of the remaining input; any other step
/// pays `amount_in * fee_bps / (10000 - fee_bps)`, rounded up.
pub open spec fn step_fee(amount_in: i128, amount_remaining: i128, amount_available: i128, fee_bps: i128, fee_divisor: i128) -> i128 {
    if amount_in == amount_available {
        clip_i128(amount_remaining - amount_in)
    } else {
        let fee_num = clip_i128(amount_in * fee_bps);
        let fee = trunc_div(fee_num as int, fee_divisor as int);
        if fee_num as int % fee_divisor as int != 0 { clip_i128(fee + 1) } else { fee as i128 }
    }
}

/// The creator's share of a step fee: `fee * creator_fee_bps / 10000`.
pub open spec fn creator_share(fee: i128, creator_fee_bps: i128) -> i128 {
    if creator_fee_bps > 0 && fee > 0 { (clip_i128(fee * creator_fee_bps) / 10000) as i128 } else { 0 }
}

/// Whether a step target lies behind the current price, against the swap
/// direction: this happens when the search finds no active tick ahead and falls
/// back to the current tick. A run stops there rather than move the price the
/// wrong way.
pub open spec fn target_behind(sqrt_price: u128, target: u128, zero_for_one: bool) -> bool {
    if zero_for_one { target > sqrt_price } else { target < sqrt_price }
}

/// Whether a step selling token0 starts exactly at the price of the active tick
/// it targets: the step then moves nothing and crosses that tick (its liquidity
/// leaves the range, the current tick becomes the one below) before the run goes
/// on, as a zero step does.
pub open spec fn zero_step_crosses(m: Map<i32, TickInfo>, s: StepState, zero_for_one: bool, next_tick: i32, target: u128) -> bool {
    zero_for_one && s.sqrt_price == target && tick_active(tick_of(m, next_tick))
}

/// One step of a swap run over the ticks `m`. A step that would move nothing
/// stops the run, except a step selling token0 that starts at the price of the
/// active tick it targets, which crosses that tick (`zero_step_crosses`).
pub open spec fn swap_iteration(m: Map<i32, TickInfo>, s: StepState, p: SwapParams) -> StepOutcome {
    let limit = effective_limit(p);
    if s.amount_remaining <= 0 || s.liquidity <= 0 {
        StepOutcome::Stop(s)
    } else if (p.zero_for_one && s.sqrt_price <= limit) || (!p.zero_for_one && s.sqrt_price >= limit) {
        StepOutcome::Stop(s)
    } else if !next_tick_search_ok(s.current_tick, p.tick_spacing) {
        StepOutcome::Fail(SwapError::ArithmeticOverflow)
    } else {
        let next_tick = next_initialized_tick(m, s.current_tick, p.tick_spacing, p.zero_for_one);
        if !tick_in_range(next_tick as int) {
            StepOutcome::Fail(SwapError::TickOutOfRange)
        } else {
            let raw_target = sqrt_ratio_at_tick(next_tick);
            let target = if p.zero_for_one {
                if raw_target < limit { limit } else { raw_target }
            } else {
                if raw_target > limit { limit } else { raw_target }
            };
            let fee_divisor = 10000 - p.fee_bps;
            if fee_divisor <= 0 {
                if p.allow_panic { StepOutcome::Fail(SwapError::FeeTooHigh) } else { StepOutcome::Stop(s) }
            } else {
                let available = (clip_i128(s.amount_remaining * fee_divisor) / 10000) as i128;
                if available < MIN_OUTPUT_AMOUNT {
                    StepOutcome::Stop(s)
                } else if target_behind(s.sqrt_price, target, p.zero_for_one) {
                    StepOutcome::Stop(s)
                } else if zero_step_crosses(m, s, p.zero_for_one, next_tick, target) {
                    let net = tick_of(m, next_tick).liquidity_net;
                    StepOutcome::Continue(
                        StepState { liquidity: clip_i128(s.liquidity - net), current_tick: (next_tick - 1) as i32, ..s },
                        Some(Crossing {
                            tick: next_tick,
                            fee_growth_global_0: s.fee_growth_global_0,
                            fee_growth_global_1: s.fee_growth_global_1,
                        }),
                    )
                } else if s.sqrt_price != target && !swap_step_ok(s.sqrt_price, s.liquidity, available, p.zero_for_one, target) {
                    StepOutcome::Fail(SwapError::ArithmeticOverflow)
                } else {
                    let step = if s.sqrt_price == target {
                        (s.sqrt_price, 0i128, 0i128)
                    } else {
                        swap_step_with_target(s.sqrt_price, s.liquidity, available, p.zero_for_one, target)
                    };
                    let (sqrt_next, amount_in, amount_out) = step;
                    if amount_in < MIN_OUTPUT_AMOUNT || amount_out < MIN_OUTPUT_AMOUNT {
                        StepOutcome::Stop(s)
                    } else {
                        let fee = step_fee(amount_in, s.amount_remaining, available, p.fee_bps, fee_divisor as i128);
                        if fee < 0 || fee > amount_in {
                            if p.allow_panic { StepOutcome::Fail(SwapError::InvalidFee) } else { StepOutcome::Stop(s) }
                        } else {
                            let creator_fee = creator_share(fee, p.creator_fee_bps);
                            let lp_fee = clip_i128(fee - creator_fee);
                            let growth = if lp_fee > 0 { div_q64_spec(lp_fee as u128, s.liquidity as u128) as u128 } else { 0 };
                            let updated = StepState {
                                amount_remaining: clip_i128(clip_i128(s.amount_remaining - amount_in) - fee),
                                amount_out_total: clip_i128(s.amount_out_total + amount_out),
                                total_creator_fee: clip_i128(s.total_creator_fee + creator_fee),
                                fee_growth_global_0: if lp_fee > 0 && p.zero_for_one { wrap_add_u128(s.fee_growth_global_0, growth) } else { s.fee_growth_global_0 },
                                fee_growth_global_1: if lp_fee > 0 && !p.zero_for_one { wrap_add_u128(s.fee_growth_global_1, growth) } else { s.fee_growth_global_1 },
                                ..s
                            };
                            let should_cross = if p.zero_for_one { target <= s.sqrt_price } else { target >= s.sqrt_price };
                            let at_user_limit = p.sqrt_price_limit_x64 != 0 && target == limit;
                            if sqrt_next == target && should_cross && !at_user_limit {
                                let net = tick_of(m, next_tick).liquidity_net;
                                StepOutcome::Continue(
                                    StepState {
                                        sqrt_price: target,
                                        liquidity: if p.zero_for_one { clip_i128(s.liquidity - net) } else { clip_i128(s.liquidity + net) },
                                        current_tick: if p.zero_for_one { (next_tick - 1) as i32 } else { next_tick },
                                        ..updated
                                    },
                                    Some(Crossing {
                                        tick: next_tick,
                                        fee_growth_global_0: updated.fee_growth_global_0,
                                        fee_growth_global_1: updated.fee_growth_global_1,
                                    }),
                                )
                            } else if sqrt_next != s.sqrt_price {
                                let moved = StepState { sqrt_price: sqrt_next, ..updated };
                                if moved.amount_remaining <= 0 { StepOutcome::Stop(moved) } else { StepOutcome::Continue(moved, None) }
                            } else {
                                StepOutcome::Stop(updated)
                            }
                        }
                    }
                }
            }
        }
    }
}

/// The crossings of a step, as a sequence.
pub open spec fn crossing_seq(c: Option<Crossing>) -> Seq<Crossing> {
    match c {
        Some(x) => seq![x],
        None => Seq::empty(),
    }
}

/// A swap run of at most `fuel` steps: the final state and the ticks crossed, in
/// order, or the reason the swap is aborted.
pub open spec fn swap_run(m: Map<i32, TickInfo>, s: StepState, p: SwapParams, fuel: nat) -> Result<(StepState, Seq<Crossing>), SwapError>
    decreases fuel,
{
    if fuel == 0 {
        Ok((s, Seq::empty()))
    } else {
        match swap_iteration(m, s, p) {
            StepOutcome::Continue(s2, c) => match swap_run(m, s2, p, (fuel - 1) as nat) {
                Ok((s3, cs)) => Ok((s3, crossing_seq(c) + cs)),
                Err(e) => Err(e),
            },
            StepOutcome::Stop(s2) => Ok((s2, Seq::empty())),
            StepOutcome::Fail(e) => Err(e),
        }
    }
}

/// The ticks after applying crossings in order.
pub open spec fn apply_crossings(m: Map<i32, TickInfo>, cs: Seq<Crossing>) -> Map<i32, TickInfo>
    decreases cs.len(),
{
    if cs.len() == 0 {
        m
    } else {
        apply_crossings(
            m.insert(cs[0].tick, tick_after_cross(tick_of(m, cs[0].tick), cs[0].fee_growth_global_0, cs[0].fee_growth_global_1)),
            cs.drop_first(),
        )
    }
}

/// The state a swap run starts from.
pub open spec fn initial_step_state(st: SwapState, amount: i128) -> StepState {
    StepState {
        amount_remaining: amount,
        amount_out_total: 0,
        total_creator_fee: 0,
        sqrt_price: st.sqrt_price_x64,
        liquidity: st.liquidity,
        current_tick: st.current_tick,
        fee_growth_global_0: st.fee_growth_global_0,
        fee_growth_global_1: st.fee_growth_global_1,
    }
}

/// The complete outcome of a swap of `amount` from state `st`: the new pool
/// state, the input used, the output, the creator fee, and the ticks crossed; or
/// the reason the swap is aborted. A run whose output is below the minimum aborts
/// when `allow_panic` holds and otherwise reports nothing swapped.
pub open spec fn swap_outcome(m: Map<i32, TickInfo>, st: SwapState, amount: i128, p: SwapParams) -> Result<(SwapState, i128, i128, i128, Seq<Crossing>), SwapError> {
    match swap_run(m, initial_step_state(st, amount), p, MAX_SWAP_ITERATIONS as nat) {
        Err(e) => Err(e),
        Ok((s, cs)) => {
            if s.amount_out_total < MIN_OUTPUT_AMOUNT {
                if p.allow_panic {
                    Err(SwapError::OutputTooSmall)
                } else {
                    Ok((SwapState { fee_growth_global_0: s.fee_growth_global_0, fee_growth_global_1: s.fee_growth_global_1, ..st },
                        0, 0, 0, cs))
                }
            } else {
                Ok((SwapState {
                    sqrt_price_x64: s.sqrt_price,
                    current_tick: s.current_tick,
                    liquidity: s.liquidity,
                    tick_spacing: st.tick_spacing,
                    fee_growth_global_0: s.fee_growth_global_0,
                    fee_growth_global_1: s.fee_growth_global_1,
                }, clip_i128(amount - s.amount_remaining), s.amount_out_total, s.total_creator_fee, cs))
            }
        },
    }
}

/// Whether a fee in basis points leaves `10000 - fee_bps` representable.
pub open spec fn fee_bps_ok(fee_bps: i128) -> bool {
    10000 - fee_bps <= i128::MAX
}

/// Computes the fee for a swap step.
pub fn calculate_step_fee(
    amount_in: i128,
    amount_remaining: i128,
    amount_available: i128,
    fee_bps: i128,
    fee_divisor: i128,
) -> (r: i128)
    requires
        fee_divisor > 0,
    ensures
        r == step_fee(amount_in, amount_remaining, amount_available, fee_bps, fee_divisor),
{
    if amount_in == amount_available {
        sat_sub_i128(amount_remaining, amount_in)
    } else {
        let fee_num = sat_mul_i128(amount_in, fee_bps);
        let fee = fee_num.checked_div(fee_divisor).unwrap();
        let rem = fee_num.checked_rem(fee_divisor).unwrap();
        proof {
            crate::math::lemmas::lemma_neg_mod_zero(fee_num as int, fee_divisor as int);
            vstd::arithmetic::div_mod::lemma_small_mod(0, fee_divisor as nat);
            assert(fee_num < 0 ==> (fee_num as int * -1) == -(fee_num as int));
            assert((rem == 0) == (fee_num as int % fee_divisor as int == 0));
            assert(fee == trunc_div(fee_num as int, fee_divisor as int));
        }
        if rem != 0 {
            sat_add_i128(fee, 1)
        } else {
            fee
        }
    }
}

/// Runs one step of a swap.
fn swap_iteration_exec(env: &Env, ticks: &TickTable, s: StepState, p: SwapParams) -> (r: StepOutcome)
    requires
        fee_bps_ok(p.fee_bps),
    ensures
        r == swap_iteration(ticks@, s, p),
{
    if s.amount_remaining <= 0 || s.liquidity <= 0 {
        return StepOutcome::Stop(s);
    }
    let sqrt_limit = if p.sqrt_price_limit_x64 == 0 {
        if p.zero_for_one { 100 } else { u128::MAX - 1000 }
    } else {
        p.sqrt_price_limit_x64
    };
    if p.zero_for_one && s.sqrt_price <= sqrt_limit {
        return StepOutcome::Stop(s);
    }
    if !p.zero_for_one && s.sqrt_price >= sqrt_limit {
        return StepOutcome::Stop(s);
    }
    if !check_next_tick_search(s.current_tick, p.tick_spacing) {
        return StepOutcome::Fail(SwapError::ArithmeticOverflow);
    }
    let next_tick = find_next_initialized_tick(env, ticks, s.current_tick, p.tick_spacing, p.zero_for_one);
    if !(MIN_TICK <= next_tick && next_tick <= MAX_TICK) {
        return StepOutcome::Fail(SwapError::TickOutOfRange);
    }
    let mut sqrt_target = get_sqrt_ratio_at_tick(next_tick);
    if p.zero_for_one {
        if sqrt_target < sqrt_limit {
            sqrt_target = sqrt_limit;
        }
    } else if sqrt_target > sqrt_limit {
        sqrt_target = sqrt_limit;
    }
    let fee_divisor = 10000 - p.fee_bps;
    if fee_divisor <= 0 {
        if p.allow_panic {
            return StepOutcome::Fail(SwapError::FeeTooHigh);
        } else {
            return StepOutcome::Stop(s);
        }
    }
    let amount_available = sat_mul_i128(s.amount_remaining, fee_divisor).checked_div(10000).unwrap();
    if amount_available < MIN_OUTPUT_AMOUNT {
        return StepOutcome::Stop(s);
    }
    if (p.zero_for_one && sqrt_target > s.sqrt_price) || (!p.zero_for_one && sqrt_target < s.sqrt_price) {
        return StepOutcome::Stop(s);
    }
    if p.zero_for_one && s.sqrt_price == sqrt_target {
        let info = ticks.read(next_tick);
        if info.initialized && info.liquidity_gross > 0 {
            let liquidity = sat_sub_i128(s.liquidity, info.liquidity_net);
            return StepOutcome::Continue(
                StepState { liquidity, current_tick: next_tick - 1, ..s },
                Some(Crossing {
                    tick: next_tick,
                    fee_growth_global_0: s.fee_growth_global_0,
                    fee_growth_global_1: s.fee_growth_global_1,
                }),
            );
        }
    }
    let (sqrt_next, amount_in, amount_out) = if s.sqrt_price == sqrt_target {
        (s.sqrt_price, 0i128, 0i128)
    } else {
        match try_compute_swap_step_with_target(env, s.sqrt_price, s.liquidity, amount_available, p.zero_for_one, sqrt_target) {
            Some(v) => v,
            None => {
                return StepOutcome::Fail(SwapError::ArithmeticOverflow);
            },
        }
    };
    if amount_in < MIN_OUTPUT_AMOUNT || amount_out < MIN_OUTPUT_AMOUNT {
        return StepOutcome::Stop(s);
    }
    let fee = calculate_step_fee(amount_in, s.amount_remaining, amount_available, p.fee_bps, fee_divisor);
    if fee < 0 || fee > amount_in {
        if p.allow_panic {
            return StepOutcome::Fail(SwapError::InvalidFee);
        } else {
            return StepOutcome::Stop(s);
        }
    }
    let creator_fee = if p.creator_fee_bps > 0 && fee > 0 {
        sat_mul_i128(fee, p.creator_fee_bps).checked_div(10000).unwrap()
    } else {
        0
    };
    let lp_fee = sat_sub_i128(fee, creator_fee);
    let mut fee_growth_global_0 = s.fee_growth_global_0;
    let mut fee_growth_global_1 = s.fee_growth_global_1;
    if s.liquidity > 0 && lp_fee > 0 {
        let growth_delta = div_q64(lp_fee as u128, s.liquidity as u128);
        if p.zero_for_one {
            fee_growth_global_0 = fee_growth_global_0.wrapping_add(growth_delta);
        } else {
            fee_growth_global_1 = fee_growth_global_1.wrapping_add(growth_delta);
        }
    }
    let updated = StepState {
        amount_remaining: sat_sub_i128(sat_sub_i128(s.amount_remaining, amount_in), fee),
        amount_out_total: sat_add_i128(s.amount_out_total, amount_out),
        total_creator_fee: sat_add_i128(s.total_creator_fee, creator_fee),
        fee_growth_global_0,
        fee_growth_global_1,
        ..s
    };
    let should_cross = if p.zero_for_one { sqrt_target <= s.sqrt_price } else { sqrt_target >= s.sqrt_price };
    let at_user_limit = p.sqrt_price_limit_x64 != 0 && sqrt_target == sqrt_limit;
    if sqrt_next == sqrt_target && should_cross && !at_user_limit {
        let liquidity_net = ticks.read(next_tick).liquidity_net;
        let liquidity = if p.zero_for_one {
            sat_sub_i128(s.liquidity, liquidity_net)
        } else {
            sat_add_i128(s.liquidity, liquidity_net)
        };
        let current_tick = if p.zero_for_one { next_tick - 1 } else { next_tick };
        StepOutcome::Continue(
            StepState { sqrt_price: sqrt_target, liquidity, current_tick, ..updated },
            Some(Crossing { tick: next_tick, fee_growth_global_0, fee_growth_global_1 }),
        )
    } else if sqrt_next != s.sqrt_price {
        let moved = StepState { sqrt_price: sqrt_next, ..updated };
        if moved.amount_remaining <= 0 {
            StepOutcome::Stop(moved)
        } else {
            StepOutcome::Continue(moved, None)
        }
    } else {
        StepOutcome::Stop(updated)
    }
}

/// Runs up to `fuel` steps of a swap, appending the ticks crossed to `crossings`.
fn swap_run_exec(
    env: &Env,
    ticks: &TickTable,
    s: StepState,
    p: SwapParams,
    fuel: u32,
    crossings: &mut Vec<Crossing>,
) -> (r: Result<StepState, SwapError>)
    requires
        fee_bps_ok(p.fee_bps),
    ensures
        match swap_run(ticks@, s, p, fuel as nat) {
            Ok((s2, cs)) => r == Ok::<StepState, SwapError>(s2) && final(crossings)@ == old(crossings)@ + cs,
            Err(e) => r == Err::<StepState, SwapError>(e),
        },
    decreases fuel,
{
    if fuel == 0 {
        proof {
            assert(old(crossings)@ + Seq::<Crossing>::empty() =~= old(crossings)@);
        }
        return Ok(s);
    }
    match swap_iteration_exec(env, ticks, s, p) {
        StepOutcome::Continue(s2, c) => {
            let ghost before = crossings@;
            match c {
                Some(x) => {
                    crossings.push(x);
                },
                None => {},
            }
            assert(crossings@ =~= before + crossing_seq(c));
            let r = swap_run_exec(env, ticks, s2, p, fuel - 1, crossings);
            proof {
                match swap_run(ticks@, s2, p, (fuel - 1) as nat) {
                    Ok((s3, cs)) => {
                        assert(before + crossing_seq(c) + cs =~= before + (crossing_seq(c) + cs));
                    },
                    Err(e) => {},
                }
            }
            r
        },
        StepOutcome::Stop(s2) => {
            proof {
                assert(old(crossings)@ + Seq::<Crossing>::empty() =~= old(crossings)@);
            }
            Ok(s2)
        },
        StepOutcome::Fail(e) => Err(e),
    }
}

/// Applies tick crossings in order.
pub(crate) fn apply_crossings_exec(env: &Env, ticks: &mut TickTable, crossings: &Vec<Crossing>)
    ensures
        final(ticks)@ == apply_crossings(old(ticks)@, crossings@),
{
    let mut i: usize = 0;
    assert(crossings@.skip(0) =~= crossings@);
    while i < crossings.len()
        invariant
            i <= crossings@.len(),
            apply_crossings(old(ticks)@, crossings@) == apply_crossings(ticks@, crossings@.skip(i as int)),
        decreases crossings@.len() - i,
    {
        let c = crossings[i];
        let ghost m = ticks@;
        cross_tick(env, ticks, c.tick, c.fee_growth_global_0, c.fee_growth_global_1);
        proof {
            assert(crossings@.skip(i as int).drop_first() =~= crossings@.skip(i + 1));
            assert(crossings@.skip(i as int)[0] == c);
        }
        i = i + 1;
    }
    proof {
        assert(crossings@.skip(i as int).len() == 0);
    }
}

/// Simulates a swap without touching the ticks: the new state, the input used,
/// the output, the creator fee, and the ticks that would be crossed.
pub(crate) fn run_swap(
    env: &Env,
    state: &SwapState,
    ticks: &TickTable,
    amount_specified: i128,
    p: SwapParams,
) -> (r: Result<(SwapState, i128, i128, i128, Vec<Crossing>), SwapError>)
    requires
        fee_bps_ok(p.fee_bps),
        p.tick_spacing == state.tick_spacing,
    ensures
        match swap_outcome(ticks@, *state, amount_specified, p) {
            Ok((st, ain, aout, cf, cs)) => r matches Ok((st2, ain2, aout2, cf2, cs2)) && st2 == st && ain2 == ain
                && aout2 == aout && cf2 == cf && cs2@ == cs,
            Err(e) => r == Err::<(SwapState, i128, i128, i128, Vec<Crossing>), SwapError>(e),
        },
{
    let s0 = StepState {
        amount_remaining: amount_specified,
        amount_out_total: 0,
        total_creator_fee: 0,
        sqrt_price: state.sqrt_price_x64,
        liquidity: state.liquidity,
        current_tick: state.current_tick,
        fee_growth_global_0: state.fee_growth_global_0,
        fee_growth_global_1: state.fee_growth_global_1,
    };
    let mut crossings: Vec<Crossing> = Vec::new();
    let r = swap_run_exec(env, ticks, s0, p, MAX_SWAP_ITERATIONS, &mut crossings);
    proof {
        assert(Seq::<Crossing>::empty() + crossings@ =~= crossings@);
    }
    match r {
        Err(e) => Err(e),
        Ok(s) => {
            if s.amount_out_total < MIN_OUTPUT_AMOUNT {
                if p.allow_panic {
                    Err(SwapError::OutputTooSmall)
                } else {
                    Ok((SwapState {
                        fee_growth_global_0: s.fee_growth_global_0,
                        fee_growth_global_1: s.fee_growth_global_1,
                        ..*state
                    }, 0, 0, 0, crossings))
                }
            } else {
                let new_state = SwapState {
                    sqrt_price_x64: s.sqrt_price,
                    current_tick: s.current_tick,
                    liquidity: s.liquidity,
                    tick_spacing: state.tick_spacing,
                    fee_growth_global_0: s.fee_growth_global_0,
                    fee_growth_global_1: s.fee_growth_global_1,
                };
                Ok((new_state, sat_sub_i128(amount_specified, s.amount_remaining), s.amount_out_total,
                    s.total_creator_fee, crossings))
            }
        },
    }
}

/// The parameters of an executed swap.
pub open spec fn exec_params(state: SwapState, zero_for_one: bool, sqrt_price_limit_x64: u128, fee_bps: i128, creator_fee_bps: i128) -> SwapParams {
    SwapParams {
        zero_for_one,
        sqrt_price_limit_x64,
        fee_bps,
        creator_fee_bps,
        allow_panic: true,
        tick_spacing: state.tick_spacing,
    }
}

/// Executes a swap of `amount_specified` input: updates the pool state, crosses
/// the ticks on the way, and returns `(amount_in, amount_out, creator_fee)`, where
/// the creator fee is the part of the input fee owed to the pool creator. An
/// input below the minimum, a pool without liquidity, and every condition under
/// which the swap must abort are reported as errors.
pub fn engine_swap(
    env: &Env,
    state: &mut SwapState,
    ticks: &mut TickTable,
    amount_specified: i128,
    zero_for_one: bool,
    sqrt_price_limit_x64: u128,
    fee_bps: i128,
    creator_fee_bps: i128,
) -> (r: Result<(i128, i128, i128), SwapError>)
    requires
        fee_bps_ok(fee_bps),
    ensures
        amount_specified < MIN_SWAP_AMOUNT ==> r == Err::<(i128, i128, i128), SwapError>(SwapError::AmountTooSmall),
        amount_specified >= MIN_SWAP_AMOUNT && old(state).liquidity <= 0 ==> r == Err::<(i128, i128, i128), SwapError>(
            SwapError::NoLiquidity),
        amount_specified >= MIN_SWAP_AMOUNT && old(state).liquidity > 0 ==> match swap_outcome(old(ticks)@, *old(state),
            amount_specified, exec_params(*old(state), zero_for_one, sqrt_price_limit_x64, fee_bps, creator_fee_bps)) {
            Ok((st, ain, aout, cf, cs)) => r == Ok::<(i128, i128, i128), SwapError>((ain, aout, cf)) && *final(state) == st
                && final(ticks)@ == apply_crossings(old(ticks)@, cs),
            Err(e) => r == Err::<(i128, i128, i128), SwapError>(e),
        },
        r is Err ==> *final(state) == *old(state) && final(ticks)@ == old(ticks)@,
{
    if amount_specified < MIN_SWAP_AMOUNT {
        return Err(SwapError::AmountTooSmall);
    }
    if amount_specified <= 0 {
        return Ok((0, 0, 0));
    }
    if state.liquidity <= 0 {
        return Err(SwapError::NoLiquidity);
    }
    let p = SwapParams {
        zero_for_one,
        sqrt_price_limit_x64,
        fee_bps,
        creator_fee_bps,
        allow_panic: true,
        tick_spacing: state.tick_spacing,
    };
    match run_swap(env, state, ticks, amount_specified, p) {
        Err(e) => Err(e),
        Ok((new_state, amount_in, amount_out, creator_fee, crossings)) => {
            apply_crossings_exec(env, ticks, &crossings);
            *state = new_state;
            Ok((amount_in, amount_out, creator_fee))
        },
    }
}

/// The parameters of a quoted swap: no creator fee, and an invalid fee ends the
/// simulation instead of aborting it.
pub open spec fn quote_params(state: SwapState, zero_for_one: bool, sqrt_price_limit_x64: u128, fee_bps: i128) -> SwapParams {
    SwapParams {
        zero_for_one,
        sqrt_price_limit_x64,
        fee_bps,
        creator_fee_bps: 0,
        allow_panic: false,
        tick_spacing: state.tick_spacing,
    }
}

/// What a quote reports: `(amount_in_used, amount_out, final_price)`.
pub open spec fn quote_outcome(ticks: Map<i32, TickInfo>, state: SwapState, amount_in: i128, zero_for_one: bool, sqrt_price_limit_x64: u128, fee_bps: i128) -> Result<(i128, i128, u128), SwapError> {
    if amount_in < MIN_SWAP_AMOUNT || amount_in <= 0 || state.liquidity <= 0 {
        Ok((0, 0, state.sqrt_price_x64))
    } else {
        match swap_outcome(ticks, state, amount_in, quote_params(state, zero_for_one, sqrt_price_limit_x64, fee_bps)) {
            Ok((st, ain, aout, cf, cs)) => Ok((ain, aout, st.sqrt_price_x64)),
            Err(e) => Err(e),
        }
    }
}

/// Quotes a swap without executing it: `(amount_in_used, amount_out, final_price)`.
/// Errors are the conditions under which the simulation itself must abort.
pub fn quote_swap(
    env: &Env,
    state: &SwapState,
    ticks: &TickTable,
    amount_in: i128,
    zero_for_one: bool,
    sqrt_price_limit_x64: u128,
    fee_bps: i128,
) -> (r: Result<(i128, i128, u128), SwapError>)
    requires
        fee_bps_ok(fee_bps),
    ensures
        r == quote_outcome(ticks@, *state, amount_in, zero_for_one, sqrt_price_limit_x64, fee_bps),
{
    if amount_in < MIN_SWAP_AMOUNT || amount_in <= 0 || state.liquidity <= 0 {
        return Ok((0, 0, state.sqrt_price_x64));
    }
    let p = SwapParams {
        zero_for_one,
        sqrt_price_limit_x64,
        fee_bps,
        creator_fee_bps: 0,
        allow_panic: false,
        tick_spacing: state.tick_spacing,
    };
    match run_swap(env, state, ticks, amount_in, p) {
        Err(e) => Err(e),
        Ok((sim_state, amount_in_used, amount_out, _creator_fee, _crossings)) => Ok((amount_in_used, amount_out, sim_state.sqrt_price_x64)),
    }
}

/// The difference between input and output in basis points of the input,
/// truncated towards zero; zero when nothing of the input was used.
pub open spec fn slippage_bps(amount_in: i128, amount_in_used: i128, amount_out: i128) -> int {
    if amount_in_used > 0 {
        trunc_div(clip_i128(clip_i128(amount_in - amount_out) * 10000) as int, amount_in as int)
    } else {
        0
    }
}

/// Computes the difference between input and output in basis points of the input.
pub fn compute_slippage_bps(amount_in: i128, amount_in_used: i128, amount_out: i128) -> (r: i128)
    requires
        amount_in > 0,
    ensures
        r == slippage_bps(amount_in, amount_in_used, amount_out),
{
    if amount_in_used > 0 {
        let num = sat_mul_i128(sat_sub_i128(amount_in, amount_out), 10000);
        proof {
            assert(num < 0 ==> (num as int * -1) == -(num as int));
        }
        num.checked_div(amount_in).unwrap()
    } else {
        0
    }
}

/// What a preview reports for a quote: `(amount_in_used, amount_out, fee_paid,
/// final_price)`, or the reason the swap would be rejected.
pub open spec fn preview_outcome(amount_in: i128, min_amount_out: i128, quote: (i128, i128, u128)) -> Result<(i128, i128, i128, u128), PreviewError> {
    let (used, out, price) = quote;
    if out < min_amount_out {
        Err(PreviewError::SlippageHigh)
    } else if out < MIN_OUTPUT_AMOUNT {
        Err(PreviewError::OutputDust)
    } else if slippage_bps(amount_in, used, out) > MAX_SLIPPAGE_BPS {
        Err(PreviewError::SlippageMax)
    } else {
        Ok((used, out, clip_i128(used - out), price))
    }
}

/// Validates and previews a swap. The outer error is a condition under which the
/// simulation itself must abort; the inner one the reason the swap would be
/// rejected: an input below the minimum, no liquidity, output below the
/// caller's minimum, dust output, or a slippage above the ceiling.
pub fn validate_and_preview_swap(
    env: &Env,
    state: &SwapState,
    ticks: &TickTable,
    amount_in: i128,
    min_amount_out: i128,
    zero_for_one: bool,
    sqrt_price_limit_x64: u128,
    fee_bps: i128,
) -> (r: Result<Result<(i128, i128, i128, u128), PreviewError>, SwapError>)
    requires
        fee_bps_ok(fee_bps),
    ensures
        amount_in < MIN_SWAP_AMOUNT ==> r == Ok::<Result<(i128, i128, i128, u128), PreviewError>, SwapError>(Err(
            PreviewError::AmountLow)),
        amount_in >= MIN_SWAP_AMOUNT && state.liquidity <= 0 ==> r == Ok::<Result<(i128, i128, i128, u128), PreviewError>,
            SwapError>(Err(PreviewError::NoLiquidity)),
        amount_in >= MIN_SWAP_AMOUNT && state.liquidity > 0 ==> match quote_outcome(ticks@, *state, amount_in, zero_for_one,
            sqrt_price_limit_x64, fee_bps) {
            Ok(q) => r == Ok::<Result<(i128, i128, i128, u128), PreviewError>, SwapError>(preview_outcome(amount_in,
                min_amount_out, q)),
            Err(e) => r == Err::<Result<(i128, i128, i128, u128), PreviewError>, SwapError>(e),
        },
{
    if amount_in < MIN_SWAP_AMOUNT {
        return Ok(Err(PreviewError::AmountLow));
    }
    if state.liquidity <= 0 {
        return Ok(Err(PreviewError::NoLiquidity));
    }
    let (amount_in_used, amount_out, final_price) = match quote_swap(env, state, ticks, amount_in, zero_for_one,
        sqrt_price_limit_x64, fee_bps) {
        Ok(q) => q,
        Err(e) => {
            return Err(e);
        },
    };
    if amount_out < min_amount_out {
        return Ok(Err(PreviewError::SlippageHigh));
    }
    if amount_out < MIN_OUTPUT_AMOUNT {
        return Ok(Err(PreviewError::OutputDust));
    }
    let fee_paid = sat_sub_i128(amount_in_used, amount_out);
    let slippage = compute_slippage_bps(amount_in, amount_in_used, amount_out);
    if slippage > MAX_SLIPPAGE_BPS {
        return Ok(Err(PreviewError::SlippageMax));
    }
    Ok(Ok((amount_in_used, amount_out, fee_paid, final_price)))
}

} // verus!
