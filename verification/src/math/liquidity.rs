//! Conversions between token amounts and liquidity over a price range.
use vstd::prelude::*;
use vstd::arithmetic::div_mod::*;
use crate::math::constants::two64;
use crate::math::q64::{
    clip_u128, clip_i128, div_q64, div_q64_spec, div_round_up, i128_to_u128_safe, mul_q64,
    mul_q64_fits, sat_mul_u128, u128_to_i128_saturating,
};
use crate::math::lemmas::lemma_split_u128;
use soroban_sdk::Env;

verus! {

/// The smaller of two prices.
pub open spec fn lower_of(a: u128, b: u128) -> u128 {
    if a < b { a } else { b }
}

/// The larger of two prices.
pub open spec fn upper_of(a: u128, b: u128) -> u128 {
    if a < b { b } else { a }
}

/// Whether the token0 delta between two prices can be computed without the
/// Q64.64 price product overflowing.
pub open spec fn amount_0_delta_ok(a: u128, b: u128) -> bool {
    mul_q64_fits(upper_of(a, b), lower_of(a, b))
}

/// Token0 amount for `liquidity` between two prices:
/// `liquidity * (upper - lower) / (upper * lower / 2^64)`, the product
/// `liquidity * (upper - lower)` saturating, rounded up or down.
pub open spec fn amount_0_delta(a: u128, b: u128, liquidity: u128, round_up: bool) -> u128 {
    let lower = lower_of(a, b);
    let upper = upper_of(a, b);
    let product = (upper as int * lower as int) / two64();
    if product == 0 {
        0
    } else {
        let numerator = clip_u128(liquidity as int * (upper - lower));
        if round_up {
            ((numerator as int + product - 1) / product) as u128
        } else {
            (numerator as int / product) as u128
        }
    }
}

/// Token1 amount for `liquidity` between two prices:
/// `liquidity * (upper - lower) / 2^64`, the product saturating, rounded up or down.
pub open spec fn amount_1_delta(a: u128, b: u128, liquidity: u128, round_up: bool) -> u128 {
    let product = clip_u128(liquidity as int * (upper_of(a, b) - lower_of(a, b)));
    if round_up && product as int % two64() != 0 {
        (product as int / two64() + 1) as u128
    } else {
        (product as int / two64()) as u128
    }
}

/// Calculates the token0 amount for a liquidity and price range.
pub fn get_amount_0_delta(sqrt_price_a: u128, sqrt_price_b: u128, liquidity: u128, round_up: bool) -> (r: u128)
    requires
        amount_0_delta_ok(sqrt_price_a, sqrt_price_b),
    ensures
        r == amount_0_delta(sqrt_price_a, sqrt_price_b, liquidity, round_up),
{
    let (sqrt_lower, sqrt_upper) = if sqrt_price_a < sqrt_price_b {
        (sqrt_price_a, sqrt_price_b)
    } else {
        (sqrt_price_b, sqrt_price_a)
    };
    let delta_price = sqrt_upper - sqrt_lower;
    let product_prices = mul_q64(sqrt_upper, sqrt_lower);
    if product_prices == 0 {
        return 0;
    }
    let numerator = sat_mul_u128(liquidity, delta_price);
    if round_up {
        div_round_up(numerator, product_prices)
    } else {
        numerator / product_prices
    }
}

/// Calculates the token1 amount for a liquidity and price range.
pub fn get_amount_1_delta(sqrt_price_a: u128, sqrt_price_b: u128, liquidity: u128, round_up: bool) -> (r: u128)
    ensures
        r == amount_1_delta(sqrt_price_a, sqrt_price_b, liquidity, round_up),
{
    let (sqrt_lower, sqrt_upper) = if sqrt_price_a < sqrt_price_b {
        (sqrt_price_a, sqrt_price_b)
    } else {
        (sqrt_price_b, sqrt_price_a)
    };
    let delta = sqrt_upper - sqrt_lower;
    let product = sat_mul_u128(liquidity, delta);
    proof {
        lemma_split_u128(product);
    }
    if round_up {
        if product & 0xFFFFFFFFFFFFFFFF != 0 {
            (product >> 64) + 1
        } else {
            product >> 64
        }
    } else {
        product >> 64
    }
}

/// Liquidity provided by `amount0` of token0 over `[lower, upper]`:
/// `amount0 * (upper * lower / 2^64) / (upper - lower)`, saturating.
pub open spec fn liquidity_for_amount0(amount0: i128, lower: u128, upper: u128) -> i128 {
    if amount0 <= 0 || lower >= upper {
        0
    } else {
        let product = (upper as int * lower as int) / two64();
        let numerator = clip_u128(amount0 as int * product);
        clip_i128(numerator as int / (upper - lower))
    }
}

/// Liquidity provided by `amount1` of token1 over `[lower, upper]`:
/// `amount1 * 2^64 / (upper - lower)` as computed by `div_q64`, saturating.
pub open spec fn liquidity_for_amount1(amount1: i128, lower: u128, upper: u128) -> i128 {
    if amount1 <= 0 || lower >= upper {
        0
    } else {
        clip_i128(div_q64_spec(amount1 as u128, (upper - lower) as u128))
    }
}

/// Whether the liquidity from token0 can be computed without overflow.
pub open spec fn liquidity_for_amount0_ok(amount0: i128, lower: u128, upper: u128) -> bool {
    amount0 <= 0 || lower >= upper || mul_q64_fits(upper, lower)
}

/// Calculates liquidity from a token0 amount.
pub fn get_liquidity_for_amount0(env: &Env, amount0: i128, sqrt_price_lower: u128, sqrt_price_upper: u128) -> (r: i128)
    requires
        liquidity_for_amount0_ok(amount0, sqrt_price_lower, sqrt_price_upper),
    ensures
        r == liquidity_for_amount0(amount0, sqrt_price_lower, sqrt_price_upper),
        r >= 0,
{
    if amount0 <= 0 || sqrt_price_lower >= sqrt_price_upper {
        return 0;
    }
    let amt0_u = i128_to_u128_safe(amount0);
    let product = mul_q64(sqrt_price_upper, sqrt_price_lower);
    let numerator = sat_mul_u128(amt0_u, product);
    let denominator = sqrt_price_upper - sqrt_price_lower;
    u128_to_i128_saturating(numerator / denominator)
}

/// Calculates liquidity from a token1 amount.
pub fn get_liquidity_for_amount1(env: &Env, amount1: i128, sqrt_price_lower: u128, sqrt_price_upper: u128) -> (r: i128)
    ensures
        r == liquidity_for_amount1(amount1, sqrt_price_lower, sqrt_price_upper),
        r >= 0,
{
    if amount1 <= 0 || sqrt_price_lower >= sqrt_price_upper {
        return 0;
    }
    let amt1_u = i128_to_u128_safe(amount1);
    let diff = sqrt_price_upper - sqrt_price_lower;
    let liq_u = div_q64(amt1_u, diff);
    u128_to_i128_saturating(liq_u)
}

/// Liquidity provided by both amounts at the current price: token0 alone below the
/// range, token1 alone above it, and the smaller of the two inside it.
pub open spec fn liquidity_for_amounts(amount0: i128, amount1: i128, lower: u128, upper: u128, current: u128) -> i128 {
    if lower >= upper {
        0
    } else if current <= lower {
        liquidity_for_amount0(amount0, lower, upper)
    } else if current >= upper {
        liquidity_for_amount1(amount1, lower, upper)
    } else {
        let l0 = liquidity_for_amount0(amount0, current, upper);
        let l1 = liquidity_for_amount1(amount1, lower, current);
        if l0 <= l1 { l0 } else { l1 }
    }
}

/// Whether the liquidity for both amounts can be computed without overflow.
pub open spec fn liquidity_for_amounts_ok(amount0: i128, lower: u128, upper: u128, current: u128) -> bool {
    lower >= upper || current >= upper || (current <= lower && liquidity_for_amount0_ok(amount0, lower, upper))
        || (current > lower && liquidity_for_amount0_ok(amount0, current, upper))
}

/// Calculates liquidity from both token amounts.
pub fn get_liquidity_for_amounts(
    env: &Env,
    amount0_desired: i128,
    amount1_desired: i128,
    sqrt_price_lower: u128,
    sqrt_price_upper: u128,
    current_sqrt_price: u128,
) -> (r: i128)
    requires
        liquidity_for_amounts_ok(amount0_desired, sqrt_price_lower, sqrt_price_upper, current_sqrt_price),
    ensures
        r == liquidity_for_amounts(amount0_desired, amount1_desired, sqrt_price_lower, sqrt_price_upper, current_sqrt_price),
        r >= 0,
{
    if sqrt_price_lower >= sqrt_price_upper {
        return 0;
    }
    if current_sqrt_price <= sqrt_price_lower {
        get_liquidity_for_amount0(env, amount0_desired, sqrt_price_lower, sqrt_price_upper)
    } else if current_sqrt_price >= sqrt_price_upper {
        get_liquidity_for_amount1(env, amount1_desired, sqrt_price_lower, sqrt_price_upper)
    } else {
        let liq0 = get_liquidity_for_amount0(env, amount0_desired, current_sqrt_price, sqrt_price_upper);
        let liq1 = get_liquidity_for_amount1(env, amount1_desired, sqrt_price_lower, current_sqrt_price);
        if liq0 <= liq1 { liq0 } else { liq1 }
    }
}

/// The current price clamped into `[lower, upper]` (lower bound first).
pub open spec fn clamp_price(current: u128, lower: u128, upper: u128) -> u128 {
    let m = if current >= lower { current } else { lower };
    if m <= upper { m } else { upper }
}

/// Whether the amounts for a liquidity can be computed without overflow.
pub open spec fn amounts_for_liquidity_ok(liquidity: i128, lower: u128, upper: u128, current: u128) -> bool {
    let sp = clamp_price(current, lower, upper);
    liquidity <= 0 || sp >= upper || amount_0_delta_ok(sp, upper)
}

/// Token amounts represented by `liquidity` over `[lower, upper]` at the current
/// price, rounded down and saturated into `i128`.
pub open spec fn amounts_for_liquidity(liquidity: i128, lower: u128, upper: u128, current: u128) -> (i128, i128) {
    if liquidity <= 0 {
        (0, 0)
    } else {
        let l = liquidity as u128;
        let sp = clamp_price(current, lower, upper);
        let a0 = if sp < upper { amount_0_delta(sp, upper, l, false) } else { 0 };
        let a1 = if sp > lower { amount_1_delta(lower, sp, l, false) } else { 0 };
        (clip_i128(a0 as int), clip_i128(a1 as int))
    }
}

/// Calculates token amounts from liquidity.
pub fn get_amounts_for_liquidity(
    env: &Env,
    liquidity: i128,
    sqrt_price_lower: u128,
    sqrt_price_upper: u128,
    current_sqrt_price: u128,
) -> (r: (i128, i128))
    requires
        amounts_for_liquidity_ok(liquidity, sqrt_price_lower, sqrt_price_upper, current_sqrt_price),
    ensures
        r == amounts_for_liquidity(liquidity, sqrt_price_lower, sqrt_price_upper, current_sqrt_price),
        r.0 >= 0,
        r.1 >= 0,
{
    if liquidity <= 0 {
        return (0, 0);
    }
    let liq_u = i128_to_u128_safe(liquidity);
    let m = if current_sqrt_price >= sqrt_price_lower { current_sqrt_price } else { sqrt_price_lower };
    let sp = if m <= sqrt_price_upper { m } else { sqrt_price_upper };
    let amount0_u = if sp < sqrt_price_upper {
        get_amount_0_delta(sp, sqrt_price_upper, liq_u, false)
    } else {
        0
    };
    let amount1_u = if sp > sqrt_price_lower {
        get_amount_1_delta(sqrt_price_lower, sp, liq_u, false)
    } else {
        0
    };
    (u128_to_i128_saturating(amount0_u), u128_to_i128_saturating(amount1_u))
}

} // verus!
