//! Conversion between ticks and Q64.64 square-root prices.
use vstd::prelude::*;
use vstd::arithmetic::div_mod::*;
use crate::math::constants::{two64, two128, MIN_TICK, MAX_TICK, Q64};
use crate::math::lemmas::lemma_mul_mono;
use crate::math::q64::{
    clip_u128, clip_i128, div_q64, div_q64_spec, i128_to_u128_safe, mul_div, mul_q64, mul_q64_fits, sat_mul_u128,
    u128_to_i128_saturating, ONE_X64,
};
use crate::math::liquidity::{
    amount_0_delta, amount_0_delta_ok, amount_1_delta, get_amount_0_delta, get_amount_1_delta,
};
use crate::math::lemmas::lemma_shl64;
use crate::math::wide::mul_wide;
use crate::math::lemmas::lemma_div_mono;
use soroban_sdk::Env;

verus! {

/// `sqrt(1.0001^(2^j)) * 2^64`, rounded to the nearest integer, for `j < 20`.
pub open spec fn tick_factor(j: nat) -> u128 {
    if j == 0 {
        18447666387855959851u128
    } else if j == 1 {
        18448588748116922571u128
    } else if j == 2 {
        18450433606991734263u128
    } else if j == 3 {
        18454123878217468680u128
    } else if j == 4 {
        18461506635090006702u128
    } else if j == 5 {
        18476281010653910145u128
    } else if j == 6 {
        18505865242158250042u128
    } else if j == 7 {
        18565175891880433523u128
    } else if j == 8 {
        18684368066214940583u128
    } else if j == 9 {
        18925053041275764672u128
    } else if j == 10 {
        19415764168677886927u128
    } else if j == 11 {
        20435687552633177495u128
    } else if j == 12 {
        22639080592224303007u128
    } else if j == 13 {
        27784196929998399742u128
    } else if j == 14 {
        41848122137994986129u128
    } else if j == 15 {
        94936283578220370716u128
    } else if j == 16 {
        488590176327622479861u128
    } else if j == 17 {
        12941056668319229769860u128
    } else if j == 18 {
        9078618265828848800676189u128
    } else if j == 19 {
        4468068147273140139091016147737u128
    } else {
        0u128
    }
}

/// The bit of the absolute tick that selects `tick_factor(j)`: bit `j`, for `j < 20`.
pub open spec fn tick_mask(j: nat) -> u32 {
    if j < 20 { 1u32 << (j as u32) } else { 0u32 }
}

/// Q64.64 product, saturating at `u128::MAX`.
pub open spec fn capped_mul_q64(a: u128, b: u128) -> u128 {
    clip_u128((a as int * b as int) / two64())
}

/// The Q64.64 product of the factors selected by the low `k` bits of `abs_tick`,
/// accumulated from the lowest bit upwards.
pub open spec fn ratio_upto(abs_tick: u32, k: nat) -> u128
    decreases k,
{
    if k == 0 {
        Q64
    } else {
        let prev = ratio_upto(abs_tick, (k - 1) as nat);
        if abs_tick & tick_mask((k - 1) as nat) != 0 {
            capped_mul_q64(prev, tick_factor((k - 1) as nat))
        } else {
            prev
        }
    }
}

/// The magnitude of a tick.
pub open spec fn abs_tick_of(tick: i32) -> u32 {
    if tick < 0 { (-tick) as u32 } else { tick as u32 }
}

/// `sqrt(1.0001^tick) * 2^64` by binary decomposition of the tick: the product of
/// the per-bit factors for `|tick|`, and for negative ticks its reciprocal
/// `(2^128 - 1) / ratio`.
pub open spec fn sqrt_ratio_at_tick(tick: i32) -> u128 {
    if tick == 0 {
        Q64
    } else {
        let ratio = ratio_upto(abs_tick_of(tick), 20);
        if tick < 0 {
            if ratio == 0 { u128::MAX } else { (u128::MAX / ratio) as u128 }
        } else {
            ratio
        }
    }
}

/// Whether a tick lies in the supported range.
pub open spec fn tick_in_range(tick: int) -> bool {
    MIN_TICK <= tick <= MAX_TICK
}

/// Q64.64 product that saturates at `u128::MAX` instead of overflowing.
fn mul_q64_capped(a: u128, b: u128) -> (r: u128)
    ensures
        r == capped_mul_q64(a, b),
{
    let (hi, lo) = mul_wide(a, b);
    if hi >= 0x1_0000_0000_0000_0000 {
        proof {
            assert((a as int * b as int) / two64() > u128::MAX) by {
                assert(a as int * b as int >= two64() * two128()) by (nonlinear_arith)
                    requires a as int * b as int == hi as int * two128() + lo as int, hi >= two64(),
                        lo >= 0, two128() > 0;
                vstd::arithmetic::div_mod::lemma_div_by_multiple(two128(), two64());
                lemma_div_is_ordered(two64() * two128(), a as int * b as int, two64());
                assert(two64() * two128() == two128() * two64()) by (nonlinear_arith);
            }
        }
        u128::MAX
    } else {
        proof {
            crate::math::lemmas::lemma_split_u128(lo);
            lemma_shl64(hi);
            let l1 = (lo >> 64u128) as int;
            let l0 = (lo & 0xFFFF_FFFF_FFFF_FFFFu128) as int;
            let t = hi as int * two64() + l1;
            assert((a as int) * (b as int) == two64() * t + l0) by (nonlinear_arith)
                requires (a as int) * (b as int) == hi as int * two128() + lo as int,
                    lo as int == l1 * two64() + l0, t == hi as int * two64() + l1,
                    two128() == two64() * two64();
            lemma_div_multiples_vanish_fancy(t, l0, two64());
            assert(t <= u128::MAX) by (nonlinear_arith)
                requires t == hi as int * two64() + l1, hi < two64(), l1 < two64(), hi >= 0;
        }
        (hi << 64) + (lo >> 64)
    }
}

/// The factor applied for bit `j` of the absolute tick.
fn bit_factor(j: u32) -> (r: u128)
    requires
        j < 20,
    ensures
        r == tick_factor(j as nat),
{
    if j == 0 {
        18447666387855959851u128
    } else if j == 1 {
        18448588748116922571u128
    } else if j == 2 {
        18450433606991734263u128
    } else if j == 3 {
        18454123878217468680u128
    } else if j == 4 {
        18461506635090006702u128
    } else if j == 5 {
        18476281010653910145u128
    } else if j == 6 {
        18505865242158250042u128
    } else if j == 7 {
        18565175891880433523u128
    } else if j == 8 {
        18684368066214940583u128
    } else if j == 9 {
        18925053041275764672u128
    } else if j == 10 {
        19415764168677886927u128
    } else if j == 11 {
        20435687552633177495u128
    } else if j == 12 {
        22639080592224303007u128
    } else if j == 13 {
        27784196929998399742u128
    } else if j == 14 {
        41848122137994986129u128
    } else if j == 15 {
        94936283578220370716u128
    } else if j == 16 {
        488590176327622479861u128
    } else if j == 17 {
        12941056668319229769860u128
    } else if j == 18 {
        9078618265828848800676189u128
    } else if j == 19 {
        4468068147273140139091016147737u128
    } else {
        0
    }
}

/// The mask of bit `j` of the absolute tick.
fn bit_mask(j: u32) -> (r: u32)
    requires
        j < 20,
    ensures
        r == tick_mask(j as nat),
{
    1u32 << j
}

/// Converts a tick to its Q64.64 square-root price, `sqrt(1.0001^tick) * 2^64`.
/// Ticks outside `[MIN_TICK, MAX_TICK]` are rejected.
pub fn get_sqrt_ratio_at_tick(tick: i32) -> (r: u128)
    requires
        tick_in_range(tick as int),
    ensures
        r == sqrt_ratio_at_tick(tick),
        tick == 0 ==> r == Q64,
{
    if tick == 0 {
        return ONE_X64;
    }
    let abs_tick: u32 = if tick < 0 { (-tick) as u32 } else { tick as u32 };
    let mut ratio: u128 = ONE_X64;
    let mut j: u32 = 0;
    while j < 20
        invariant
            j <= 20,
            ratio == ratio_upto(abs_tick, j as nat),
        decreases 20 - j,
    {
        if abs_tick & bit_mask(j) != 0 {
            ratio = mul_q64_capped(ratio, bit_factor(j));
        }
        j = j + 1;
    }
    if tick < 0 {
        if ratio == 0 {
            return u128::MAX;
        }
        let numerator = sat_mul_u128(ONE_X64, ONE_X64);
        assert(numerator == u128::MAX);
        ratio = numerator / ratio;
    }
    ratio
}

/// Same as [`get_sqrt_ratio_at_tick`].
pub fn tick_to_sqrt_price_x64(env: &Env, tick: i32) -> (r: u128)
    requires
        tick_in_range(tick as int),
    ensures
        r == sqrt_ratio_at_tick(tick),
{
    get_sqrt_ratio_at_tick(tick)
}

/// Whether `tick` is the greatest tick in range whose square-root price does
/// not exceed `price`.
pub open spec fn is_floor_tick(tick: int, price: u128) -> bool {
    &&& tick_in_range(tick)
    &&& sqrt_ratio_at_tick(tick as i32) <= price
    &&& (tick == MAX_TICK || sqrt_ratio_at_tick((tick + 1) as i32) > price)
}

/// The tick whose price interval contains `sqrt_price_x64`: the greatest tick in
/// range whose square-root price does not exceed it, clamped to `MIN_TICK` when
/// the price lies below every tick.
pub fn get_tick_at_sqrt_ratio(sqrt_price_x64: u128) -> (r: i32)
    ensures
        sqrt_ratio_at_tick(MIN_TICK) > sqrt_price_x64 ==> r == MIN_TICK,
        sqrt_ratio_at_tick(MIN_TICK) <= sqrt_price_x64 ==> is_floor_tick(r as int, sqrt_price_x64),
        r == crate::math::tick_laws::tick_at_sqrt_price(sqrt_price_x64),
{
    if get_sqrt_ratio_at_tick(MIN_TICK) > sqrt_price_x64 {
        return MIN_TICK;
    }
    let mut lo: i32 = MIN_TICK;
    let mut hi: i32 = MAX_TICK + 1;
    while hi - lo > 1
        invariant
            MIN_TICK <= lo < hi <= MAX_TICK + 1,
            sqrt_ratio_at_tick(lo) <= sqrt_price_x64,
            hi == MAX_TICK + 1 || sqrt_ratio_at_tick(hi) > sqrt_price_x64,
        decreases hi - lo,
    {
        let mid = lo + (hi - lo) / 2;
        if get_sqrt_ratio_at_tick(mid) <= sqrt_price_x64 {
            lo = mid;
        } else {
            hi = mid;
        }
    }
    proof {
        crate::math::tick_laws::lemma_floor_tick_is_tick_at(lo as int, sqrt_price_x64);
    }
    lo
}

/// `liquidity << 64`: the low 128 bits of `liquidity * 2^64`.
pub open spec fn shifted_liquidity(liquidity: u128) -> int {
    (liquidity as int * two64()) % two128()
}

/// `a - b`, floored at zero.
pub open spec fn sat_sub_u128(a: u128, b: u128) -> u128 {
    if a >= b { (a - b) as u128 } else { 0 }
}

/// The square-root price after adding `amount_in` of the input token at
/// `liquidity`. For token0 input: `L * P * 2^64 / ((L << 64) + amount * P)` with
/// saturating products; for token1 input: `P + amount * 2^64 / L`.
pub open spec fn next_sqrt_price_from_input(sqrt_price: u128, liquidity: u128, amount_in: u128, zero_for_one: bool) -> u128 {
    if amount_in == 0 || liquidity == 0 {
        sqrt_price
    } else if zero_for_one {
        let product = clip_u128(amount_in as int * sqrt_price as int);
        let numerator = clip_u128(liquidity as int * sqrt_price as int);
        let denominator = clip_u128(shifted_liquidity(liquidity) + product as int);
        if denominator == 0 {
            sqrt_price
        } else {
            clip_u128((numerator as int * two64()) / denominator as int)
        }
    } else {
        clip_u128(sqrt_price as int + div_q64_spec(amount_in, liquidity))
    }
}

/// The square-root price after removing `amount_out` of the output token at
/// `liquidity`: for token1 output `P - amount * 2^64 / L` (floored at zero); for
/// token0 output `L * P * 2^64 / ((L << 64) - amount * P)`, `u128::MAX` when the
/// denominator vanishes.
pub open spec fn next_sqrt_price_from_output(sqrt_price: u128, liquidity: u128, amount_out: u128, zero_for_one: bool) -> u128 {
    if amount_out == 0 || liquidity == 0 {
        sqrt_price
    } else if zero_for_one {
        sat_sub_u128(sqrt_price, clip_u128(div_q64_spec(amount_out, liquidity)))
    } else {
        let product = clip_u128(amount_out as int * sqrt_price as int);
        let numerator = clip_u128(liquidity as int * sqrt_price as int);
        let denominator = sat_sub_u128(shifted_liquidity(liquidity) as u128, product);
        if denominator == 0 {
            u128::MAX
        } else {
            clip_u128((numerator as int * two64()) / denominator as int)
        }
    }
}

/// Input moves the price in the swap direction: token1 input never lowers it,
/// and token0 input never raises it while `liquidity << 64` does not wrap.
pub proof fn lemma_next_price_from_input_direction(sqrt_price: u128, liquidity: u128, amount_in: u128, zero_for_one: bool)
    ensures
        !zero_for_one ==> next_sqrt_price_from_input(sqrt_price, liquidity, amount_in, zero_for_one) >= sqrt_price,
        zero_for_one && liquidity < two64() ==> next_sqrt_price_from_input(sqrt_price, liquidity, amount_in, zero_for_one)
            <= sqrt_price,
{
    if zero_for_one && liquidity < two64() && amount_in != 0 && liquidity != 0 {
        let product = clip_u128(amount_in as int * sqrt_price as int);
        let numerator = clip_u128(liquidity as int * sqrt_price as int);
        let denominator = clip_u128(shifted_liquidity(liquidity) + product as int);
        let n = numerator as int;
        let l = liquidity as int;
        let p = sqrt_price as int;
        assert(l * two64() < two128()) by (nonlinear_arith)
            requires l < two64(), two128() == two64() * two64(), two64() > 0;
        vstd::arithmetic::div_mod::lemma_small_mod((l * two64()) as nat, two128() as nat);
        assert(shifted_liquidity(liquidity) == l * two64());
        if denominator != 0 {
            lemma_mul_mono(n, l * p, two64(), two64());
            assert(l * p * two64() == (l * two64()) * p) by (nonlinear_arith);
            assert(l * two64() <= denominator as int);
            crate::math::lemmas::lemma_div_mono(n * two64(), (l * two64()) * p, denominator as int, l * two64());
            vstd::arithmetic::div_mod::lemma_div_by_multiple(p, l * two64());
            assert((l * two64()) * p == p * (l * two64())) by (nonlinear_arith);
        }
    }
}

/// Calculates the next square-root price given an input amount.
pub fn get_next_sqrt_price_from_input(env: &Env, sqrt_price: u128, liquidity: u128, amount_in: u128, zero_for_one: bool) -> (r: u128)
    ensures
        r == next_sqrt_price_from_input(sqrt_price, liquidity, amount_in, zero_for_one),
        !zero_for_one ==> r >= sqrt_price,
        zero_for_one && liquidity < two64() ==> r <= sqrt_price,
{
    if amount_in == 0 || liquidity == 0 {
        return sqrt_price;
    }
    if zero_for_one {
        let product = sat_mul_u128(amount_in, sqrt_price);
        let numerator = sat_mul_u128(liquidity, sqrt_price);
        proof { lemma_shl64(liquidity); }
        let liq_shifted = liquidity << 64;
        let denominator = liq_shifted.saturating_add(product);
        if denominator == 0 {
            return sqrt_price;
        }
        proof { lemma_next_price_from_input_direction(sqrt_price, liquidity, amount_in, zero_for_one); }
        mul_div(env, numerator, ONE_X64, denominator)
    } else {
        let quotient = div_q64(amount_in, liquidity);
        sqrt_price.saturating_add(quotient)
    }
}

/// Calculates the next square-root price given an output amount.
pub fn get_next_sqrt_price_from_output(env: &Env, sqrt_price: u128, liquidity: u128, amount_out: u128, zero_for_one: bool) -> (r: u128)
    ensures
        r == next_sqrt_price_from_output(sqrt_price, liquidity, amount_out, zero_for_one),
        zero_for_one ==> r <= sqrt_price,
{
    if amount_out == 0 || liquidity == 0 {
        return sqrt_price;
    }
    if zero_for_one {
        let quotient = div_q64(amount_out, liquidity);
        sqrt_price.saturating_sub(quotient)
    } else {
        let product = sat_mul_u128(amount_out, sqrt_price);
        let numerator = sat_mul_u128(liquidity, sqrt_price);
        proof { lemma_shl64(liquidity); }
        let liq_shifted = liquidity << 64;
        let denominator = liq_shifted.saturating_sub(product);
        if denominator == 0 {
            return u128::MAX;
        }
        mul_div(env, numerator, ONE_X64, denominator)
    }
}

/// Where a swap step towards `target` ends: at the target when the whole input
/// would reach or pass it, otherwise where the whole input takes the price.
pub open spec fn step_next_price(sqrt_price: u128, liquidity: i128, amount: i128, zero_for_one: bool, target: u128) -> u128 {
    let next_in = next_sqrt_price_from_input(sqrt_price, if liquidity <= 0 { 0 } else { liquidity as u128 },
        if amount <= 0 { 0 } else { amount as u128 }, zero_for_one);
    if step_reaches_target(sqrt_price, liquidity, amount, zero_for_one, target) { target } else { next_in }
}

/// Whether the whole input of a swap step would reach or pass `target`.
pub open spec fn step_reaches_target(sqrt_price: u128, liquidity: i128, amount: i128, zero_for_one: bool, target: u128) -> bool {
    let next_in = next_sqrt_price_from_input(sqrt_price, if liquidity <= 0 { 0 } else { liquidity as u128 },
        if amount <= 0 { 0 } else { amount as u128 }, zero_for_one);
    if zero_for_one { next_in <= target } else { next_in >= target }
}

/// Whether a swap step towards `target` can be computed without overflow.
pub open spec fn swap_step_ok(sqrt_price: u128, liquidity: i128, amount: i128, zero_for_one: bool, target: u128) -> bool {
    amount_0_delta_ok(sqrt_price, step_next_price(sqrt_price, liquidity, amount, zero_for_one, target))
}

/// The result `(next_price, amount_in, amount_out)` of one swap step towards a
/// target price. The input is rounded up and the output down; when the target is
/// not reached the input is capped at the amount available.
pub open spec fn swap_step_with_target(sqrt_price: u128, liquidity: i128, amount: i128, zero_for_one: bool, target: u128) -> (u128, i128, i128) {
    let l = if liquidity <= 0 { 0u128 } else { liquidity as u128 };
    let a = if amount <= 0 { 0u128 } else { amount as u128 };
    let reached = step_reaches_target(sqrt_price, liquidity, amount, zero_for_one, target);
    let next = step_next_price(sqrt_price, liquidity, amount, zero_for_one, target);
    let amount_in = if zero_for_one { amount_0_delta(sqrt_price, next, l, true) } else { amount_1_delta(sqrt_price, next, l, true) };
    let amount_out = if zero_for_one { amount_1_delta(sqrt_price, next, l, false) } else { amount_0_delta(sqrt_price, next, l, false) };
    let final_in = if !reached && amount_in > a { a } else { amount_in };
    (next, clip_i128(final_in as int), clip_i128(amount_out as int))
}

/// Computes one swap step towards a target price.
pub fn compute_swap_step_with_target(
    env: &Env,
    sqrt_price_current: u128,
    liquidity: i128,
    amount_specified: i128,
    zero_for_one: bool,
    sqrt_price_target: u128,
) -> (r: (u128, i128, i128))
    requires
        swap_step_ok(sqrt_price_current, liquidity, amount_specified, zero_for_one, sqrt_price_target),
    ensures
        r == swap_step_with_target(sqrt_price_current, liquidity, amount_specified, zero_for_one, sqrt_price_target),
        r.1 >= 0,
        r.2 >= 0,
        !step_reaches_target(sqrt_price_current, liquidity, amount_specified, zero_for_one, sqrt_price_target) ==> r.1
            <= (if amount_specified <= 0 { 0 } else { amount_specified as int }),
{
    let liq_u = i128_to_u128_safe(liquidity);
    let amount_rem_u = i128_to_u128_safe(amount_specified);
    let next_price_input = get_next_sqrt_price_from_input(env, sqrt_price_current, liq_u, amount_rem_u, zero_for_one);
    let target_reached = if zero_for_one {
        next_price_input <= sqrt_price_target
    } else {
        next_price_input >= sqrt_price_target
    };
    let sqrt_price_next = if target_reached { sqrt_price_target } else { next_price_input };
    let (amount_in, amount_out) = if zero_for_one {
        (
            get_amount_0_delta(sqrt_price_current, sqrt_price_next, liq_u, true),
            get_amount_1_delta(sqrt_price_current, sqrt_price_next, liq_u, false),
        )
    } else {
        (
            get_amount_1_delta(sqrt_price_current, sqrt_price_next, liq_u, true),
            get_amount_0_delta(sqrt_price_current, sqrt_price_next, liq_u, false),
        )
    };
    let final_amount_in = if !target_reached && amount_in > amount_rem_u { amount_rem_u } else { amount_in };
    (sqrt_price_next, u128_to_i128_saturating(final_amount_in), u128_to_i128_saturating(amount_out))
}

/// Whether the Q64.64 product of `a` and `b` fits in 128 bits, computed.
pub fn check_mul_q64_fits(a: u128, b: u128) -> (r: bool)
    ensures
        r == mul_q64_fits(a, b),
{
    let (hi, lo) = mul_wide(a, b);
    proof {
        if hi >= two64() {
            assert((a as int) * (b as int) >= two64() * two128()) by (nonlinear_arith)
                requires (a as int) * (b as int) == hi as int * two128() + lo as int, hi >= two64(),
                    lo >= 0, two128() > 0;
            vstd::arithmetic::div_mod::lemma_div_by_multiple(two128(), two64());
            lemma_div_is_ordered(two64() * two128(), (a as int) * (b as int), two64());
            assert(two64() * two128() == two128() * two64()) by (nonlinear_arith);
        } else {
            assert((a as int) * (b as int) < two128() * two64()) by (nonlinear_arith)
                requires (a as int) * (b as int) == hi as int * two128() + lo as int, hi < two64(),
                    lo < two128(), lo >= 0, two128() > 0;
            lemma_div_by_multiple(two128(), two64());
            lemma_div_is_ordered((a as int) * (b as int), two128() * two64() - 1, two64());
            lemma_div_plus_one(two128() * two64() - 1, two64());
        }
    }
    hi < 0x1_0000_0000_0000_0000
}

/// One swap step towards a target price, or `None` when the step would overflow
/// the Q64.64 price product (where [`compute_swap_step_with_target`] cannot run).
pub fn try_compute_swap_step_with_target(
    env: &Env,
    sqrt_price_current: u128,
    liquidity: i128,
    amount_specified: i128,
    zero_for_one: bool,
    sqrt_price_target: u128,
) -> (r: Option<(u128, i128, i128)>)
    ensures
        r is None <==> !swap_step_ok(sqrt_price_current, liquidity, amount_specified, zero_for_one, sqrt_price_target),
        r matches Some(v) ==> v == swap_step_with_target(sqrt_price_current, liquidity, amount_specified, zero_for_one,
            sqrt_price_target),
{
    let liq_u = i128_to_u128_safe(liquidity);
    let amount_rem_u = i128_to_u128_safe(amount_specified);
    let next_price_input = get_next_sqrt_price_from_input(env, sqrt_price_current, liq_u, amount_rem_u, zero_for_one);
    let target_reached = if zero_for_one {
        next_price_input <= sqrt_price_target
    } else {
        next_price_input >= sqrt_price_target
    };
    let sqrt_price_next = if target_reached { sqrt_price_target } else { next_price_input };
    let (lower, upper) = if sqrt_price_current < sqrt_price_next {
        (sqrt_price_current, sqrt_price_next)
    } else {
        (sqrt_price_next, sqrt_price_current)
    };
    if !check_mul_q64_fits(upper, lower) {
        return None;
    }
    Some(compute_swap_step_with_target(env, sqrt_price_current, liquidity, amount_specified, zero_for_one, sqrt_price_target))
}

} // verus!
