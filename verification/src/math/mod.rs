//! Q64.64 arithmetic, price/tick conversion and liquidity formulas.
pub mod constants;
pub mod lemmas;
pub mod q64;
pub mod wide;
pub mod sqrt_price;
pub mod liquidity;
pub mod laws;
pub mod tick_laws;

pub use constants::{
    Q64, MIN_TICK, MAX_TICK, MIN_LIQUIDITY, MIN_SWAP_AMOUNT, MIN_OUTPUT_AMOUNT, MAX_SLIPPAGE_BPS,
    MAX_SWAP_ITERATIONS, MAX_TICK_SEARCH_STEPS, MAX_FEE_BPS, MIN_CREATOR_FEE_BPS, MAX_CREATOR_FEE_BPS,
};
pub use q64::{div_q64, div_round_up, i128_to_u128_safe, mul_div, mul_q64, u128_to_i128_saturating, ONE_X64};

pub use liquidity::{
    get_amount_0_delta, get_amount_1_delta, get_amounts_for_liquidity, get_liquidity_for_amount0,
    get_liquidity_for_amount1, get_liquidity_for_amounts,
};
pub use sqrt_price::{
    compute_swap_step_with_target, get_next_sqrt_price_from_input, get_next_sqrt_price_from_output,
    get_sqrt_ratio_at_tick, get_tick_at_sqrt_ratio, tick_to_sqrt_price_x64,
};

use vstd::prelude::*;
use soroban_sdk::Env;
use crate::math::q64::clip_i128;
use crate::math::liquidity::{amount_0_delta, amount_0_delta_ok, amount_1_delta};
use crate::math::sqrt_price::next_sqrt_price_from_input;

verus! {

/// The greatest multiple of `spacing` that does not exceed `tick`.
pub open spec fn snapped_tick(tick: int, spacing: int) -> int {
    tick - tick % spacing
}

/// Rounds a tick down to a multiple of the tick spacing. A non-positive spacing
/// is rejected.
pub fn snap_tick_to_spacing(tick: i32, spacing: i32) -> (r: i32)
    requires
        spacing > 0,
        snapped_tick(tick as int, spacing as int) >= i32::MIN,
    ensures
        r == snapped_tick(tick as int, spacing as int),
        r as int % spacing as int == 0,
        r <= tick < r + spacing,
{
    let rem = tick.checked_rem_euclid(spacing).unwrap();
    proof {
        vstd::arithmetic::div_mod::lemma_fundamental_div_mod(tick as int, spacing as int);
        vstd::arithmetic::div_mod::lemma_mod_bound(tick as int, spacing as int);
        vstd::arithmetic::div_mod::lemma_mod_multiples_basic(tick as int / spacing as int, spacing as int);
        assert(tick - rem == spacing * (tick as int / spacing as int));
        assert((spacing * (tick as int / spacing as int)) % (spacing as int) == 0) by {
            vstd::arithmetic::mul::lemma_mul_is_commutative(spacing as int, tick as int / spacing as int);
        }
    }
    tick - rem
}

/// The result `(next_price, amount_in, amount_out)` of a swap step without a
/// target: the whole remaining input moves the price, both amounts are rounded
/// up, and the input is capped at the amount remaining. Nothing happens without
/// liquidity, without input, or when the price does not move.
pub open spec fn swap_step(sqrt_price: u128, liquidity: i128, amount: i128, zero_for_one: bool) -> (u128, i128, i128) {
    if liquidity <= 0 || amount <= 0 {
        (sqrt_price, 0, 0)
    } else {
        let l = liquidity as u128;
        let a = amount as u128;
        let next = next_sqrt_price_from_input(sqrt_price, l, a, zero_for_one);
        if next == sqrt_price {
            (sqrt_price, 0, 0)
        } else {
            let amount_0 = amount_0_delta(sqrt_price, next, l, true);
            let amount_1 = amount_1_delta(sqrt_price, next, l, true);
            let amount_in = if zero_for_one { amount_0 } else { amount_1 };
            let amount_out = if zero_for_one { amount_1 } else { amount_0 };
            let final_in = if amount_in <= a { amount_in } else { a };
            (next, clip_i128(final_in as int), clip_i128(amount_out as int))
        }
    }
}

/// Whether a swap step without a target can be computed without overflow.
pub open spec fn swap_step_no_target_ok(sqrt_price: u128, liquidity: i128, amount: i128, zero_for_one: bool) -> bool {
    liquidity <= 0 || amount <= 0 || amount_0_delta_ok(sqrt_price,
        next_sqrt_price_from_input(sqrt_price, liquidity as u128, amount as u128, zero_for_one))
}

/// Computes a single swap step without a target price.
pub fn compute_swap_step(
    env: &Env,
    sqrt_price_current: u128,
    liquidity: i128,
    amount_remaining: i128,
    zero_for_one: bool,
) -> (r: (u128, i128, i128))
    requires
        swap_step_no_target_ok(sqrt_price_current, liquidity, amount_remaining, zero_for_one),
    ensures
        r == swap_step(sqrt_price_current, liquidity, amount_remaining, zero_for_one),
        0 <= r.1 <= if amount_remaining <= 0 { 0 } else { amount_remaining as int },
        r.2 >= 0,
{
    if liquidity <= 0 || amount_remaining <= 0 {
        return (sqrt_price_current, 0, 0);
    }
    let liq_u = i128_to_u128_safe(liquidity);
    let amt_in_remaining = i128_to_u128_safe(amount_remaining);
    let next_sqrt_price = get_next_sqrt_price_from_input(env, sqrt_price_current, liq_u, amt_in_remaining, zero_for_one);
    let price_delta = if next_sqrt_price >= sqrt_price_current {
        next_sqrt_price - sqrt_price_current
    } else {
        sqrt_price_current - next_sqrt_price
    };
    if price_delta < 1 {
        return (sqrt_price_current, 0, 0);
    }
    let amount_0 = get_amount_0_delta(sqrt_price_current, next_sqrt_price, liq_u, true);
    let amount_1 = get_amount_1_delta(sqrt_price_current, next_sqrt_price, liq_u, true);
    let (amount_in, amount_out) = if zero_for_one { (amount_0, amount_1) } else { (amount_1, amount_0) };
    let final_amount_in = if amount_in <= amt_in_remaining { amount_in } else { amt_in_remaining };
    (next_sqrt_price, u128_to_i128_saturating(final_amount_in), u128_to_i128_saturating(amount_out))
}

} // verus!
