use vstd::prelude::*;
use soroban_sdk::Env;
use crate::math::q64::wrap_sub_u128;
use crate::tick::types::{tick_of, TickInfo, TickTable};

verus! {

/// Fee growth inside `[lower, upper)` for one token: the global growth minus the
/// growth below the lower tick and above the upper tick, all modulo `2^128`.
pub open spec fn fee_growth_inside(outside_lower: u128, outside_upper: u128, lower: i32, upper: i32, current: i32, global: u128) -> u128 {
    let below = if current >= lower { outside_lower } else { wrap_sub_u128(global, outside_lower) };
    let above = if current < upper { outside_upper } else { wrap_sub_u128(global, outside_upper) };
    wrap_sub_u128(wrap_sub_u128(global, below), above)
}

/// Fee growth inside a range for both tokens, given the ticks of the pool.
pub open spec fn fee_growth_inside_of(ticks: Map<i32, TickInfo>, lower: i32, upper: i32, current: i32, global_0: u128, global_1: u128) -> (u128, u128) {
    let lo = tick_of(ticks, lower);
    let up = tick_of(ticks, upper);
    (fee_growth_inside(lo.fee_growth_outside_0, up.fee_growth_outside_0, lower, upper, current, global_0),
     fee_growth_inside(lo.fee_growth_outside_1, up.fee_growth_outside_1, lower, upper, current, global_1))
}

/// Computes the fee growth inside `[lower_tick, upper_tick)` for both tokens.
pub fn get_fee_growth_inside(
    env: &Env,
    ticks: &TickTable,
    lower_tick: i32,
    upper_tick: i32,
    current_tick: i32,
    fee_growth_global_0: u128,
    fee_growth_global_1: u128,
) -> (r: (u128, u128))
    ensures
        r == fee_growth_inside_of(ticks@, lower_tick, upper_tick, current_tick, fee_growth_global_0, fee_growth_global_1),
{
    let lower_info = ticks.read(lower_tick);
    let upper_info = ticks.read(upper_tick);
    let (fee_growth_below_0, fee_growth_below_1) = if current_tick >= lower_tick {
        (lower_info.fee_growth_outside_0, lower_info.fee_growth_outside_1)
    } else {
        (
            fee_growth_global_0.wrapping_sub(lower_info.fee_growth_outside_0),
            fee_growth_global_1.wrapping_sub(lower_info.fee_growth_outside_1),
        )
    };
    let (fee_growth_above_0, fee_growth_above_1) = if current_tick < upper_tick {
        (upper_info.fee_growth_outside_0, upper_info.fee_growth_outside_1)
    } else {
        (
            fee_growth_global_0.wrapping_sub(upper_info.fee_growth_outside_0),
            fee_growth_global_1.wrapping_sub(upper_info.fee_growth_outside_1),
        )
    };
    let fee_growth_inside_0 = fee_growth_global_0.wrapping_sub(fee_growth_below_0).wrapping_sub(fee_growth_above_0);
    let fee_growth_inside_1 = fee_growth_global_1.wrapping_sub(fee_growth_below_1).wrapping_sub(fee_growth_above_1);
    (fee_growth_inside_0, fee_growth_inside_1)
}

} // verus!
