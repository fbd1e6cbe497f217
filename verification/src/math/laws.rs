//! Algebraic properties of the fixed-point and liquidity formulas.
use vstd::prelude::*;
use vstd::arithmetic::div_mod::{lemma_div_by_multiple, lemma_div_is_ordered};
use vstd::arithmetic::mul::{lemma_mul_inequality, lemma_mul_is_commutative};
use crate::math::constants::{two64, Q64};
use crate::math::liquidity::{
    amount_0_delta, amount_1_delta, amounts_for_liquidity, liquidity_for_amount0, liquidity_for_amount1,
    liquidity_for_amounts, lower_of, upper_of,
};
use crate::math::q64::clip_i128;
use crate::math::constants::two128;
use crate::math::q64::{clip_u128, div_q64_spec, mul_q64_fits};

verus! {

/// Multiplying by 1.0 in Q64.64 gives the value back, and the product always
/// fits.
pub proof fn lemma_mul_q64_identity(a: u128)
    ensures
        mul_q64_fits(a, Q64),
        (a as int * Q64 as int) / two64() == a,
{
    lemma_div_by_multiple(a as int, two64());
}

/// Multiplying by zero in Q64.64 gives zero.
pub proof fn lemma_mul_q64_zero(a: u128)
    ensures
        mul_q64_fits(a, 0),
        (a as int * 0) / two64() == 0,
{
}

/// The Q64.64 product does not depend on the order of its factors, nor does
/// whether it fits.
pub proof fn lemma_mul_q64_commutative(a: u128, b: u128)
    ensures
        mul_q64_fits(a, b) == mul_q64_fits(b, a),
        (a as int * b as int) / two64() == (b as int * a as int) / two64(),
{
    lemma_mul_is_commutative(a as int, b as int);
}

/// Dividing by one in Q64.64 shifts the value left by 64 bits, for values
/// below `2^64`.
pub proof fn lemma_div_q64_by_one(a: u128)
    requires
        a < two64(),
    ensures
        div_q64_spec(a, 1) == a as int * two64(),
{
}

/// `a * b / b == a`: the full-width multiply-divide loses nothing.
pub proof fn lemma_mul_div_identity(a: u128, b: u128)
    requires
        b != 0,
    ensures
        clip_u128((a as int * b as int) / b as int) == a,
{
    lemma_div_by_multiple(a as int, b as int);
}

/// The token amounts between two prices do not depend on the order in which the
/// prices are given.
pub proof fn lemma_amount_deltas_symmetric(a: u128, b: u128, liquidity: u128, round_up: bool)
    ensures
        amount_0_delta(a, b, liquidity, round_up) == amount_0_delta(b, a, liquidity, round_up),
        amount_1_delta(a, b, liquidity, round_up) == amount_1_delta(b, a, liquidity, round_up),
{
    assert(lower_of(a, b) == lower_of(b, a));
    assert(upper_of(a, b) == upper_of(b, a));
}

/// More liquidity never represents less of token0 or token1 over the same range
/// (amounts rounded down).
pub proof fn lemma_amounts_monotone_in_liquidity(a: u128, b: u128, small: u128, large: u128)
    requires
        small <= large,
    ensures
        amount_0_delta(a, b, small, false) <= amount_0_delta(a, b, large, false),
        amount_1_delta(a, b, small, false) <= amount_1_delta(a, b, large, false),
{
    let lower = lower_of(a, b);
    let upper = upper_of(a, b);
    let width = upper - lower;
    lemma_mul_inequality(small as int, large as int, width);
    let ns = clip_u128(small as int * width);
    let nl = clip_u128(large as int * width);
    assert(ns <= nl);
    let product = (upper as int * lower as int) / two64();
    if product > 0 {
        lemma_div_is_ordered(ns as int, nl as int, product);
    }
    lemma_div_is_ordered(ns as int, nl as int, two64());
}

/// No liquidity, or equal prices, means no amount; an amount rounded up is at
/// least the amount rounded down and at most one more.
pub proof fn lemma_amount_deltas_rounding(a: u128, b: u128, liquidity: u128)
    ensures
        liquidity == 0 || a == b ==> amount_0_delta(a, b, liquidity, true) == 0 && amount_0_delta(a, b, liquidity,
            false) == 0 && amount_1_delta(a, b, liquidity, true) == 0 && amount_1_delta(a, b, liquidity, false) == 0,
        amount_0_delta(a, b, liquidity, false) <= amount_0_delta(a, b, liquidity, true) <= amount_0_delta(a, b,
            liquidity, false) + 1,
        amount_1_delta(a, b, liquidity, false) <= amount_1_delta(a, b, liquidity, true) <= amount_1_delta(a, b,
            liquidity, false) + 1,
{
    let lower = lower_of(a, b);
    let upper = upper_of(a, b);
    let product = (upper as int * lower as int) / two64();
    let n0 = clip_u128(liquidity as int * (upper - lower));
    if liquidity == 0 || a == b {
        assert(liquidity as int * (upper - lower) == 0) by (nonlinear_arith)
            requires liquidity == 0 || upper == lower;
    }
    if product > 0 {
        lemma_div_is_ordered(n0 as int, n0 as int + product - 1, product);
        lemma_div_is_ordered(n0 as int + product - 1, n0 as int + product, product);
        vstd::arithmetic::div_mod::lemma_div_plus_one(n0 as int, product);
        if product == 1 {
            assert((n0 as int + product - 1) / product == n0 as int);
        } else {
            vstd::arithmetic::div_mod::lemma_div_is_ordered_by_denominator(n0 as int, 2, product);
            assert(n0 as int / 2 <= u128::MAX / 2);
        }
        assert((n0 as int + product - 1) / product <= u128::MAX);
        if liquidity == 0 || a == b {
            assert(n0 == 0);
            vstd::arithmetic::div_mod::lemma_small_mod(0, product as nat);
            vstd::arithmetic::div_mod::lemma_basic_div(product - 1, product);
        }
    }
    let p1 = clip_u128(liquidity as int * (upper - lower));
    if liquidity == 0 || a == b {
        assert(p1 == 0);
        vstd::arithmetic::div_mod::lemma_small_mod(0, two64() as nat);
    }
    vstd::arithmetic::div_mod::lemma_div_plus_one(p1 as int, two64());
}

/// `(x / d) * d <= x` for a non-negative `x` and a positive `d`.
proof fn lemma_floor_times(x: int, d: int)
    requires
        x >= 0,
        d > 0,
    ensures
        (x / d) * d <= x,
        (x / d) >= 0,
{
    vstd::arithmetic::div_mod::lemma_fundamental_div_mod(x, d);
    vstd::arithmetic::div_mod::lemma_mod_bound(x, d);
    vstd::arithmetic::div_mod::lemma_div_pos_is_pos(x, d);
    assert((x / d) * d == d * (x / d)) by (nonlinear_arith);
}

/// `x <= y * d` gives `x / d <= y`.
proof fn lemma_div_at_most(x: int, y: int, d: int)
    requires
        x >= 0,
        y >= 0,
        d > 0,
        x <= y * d,
    ensures
        x / d <= y,
{
    lemma_div_is_ordered(x, y * d, d);
    lemma_div_by_multiple(y, d);
}

/// `div_q64` never exceeds the exact quotient: `div_q64(a, b) * b <= a * 2^64`.
pub proof fn lemma_div_q64_at_most_exact(a: u128, b: u128)
    requires
        b > 0,
    ensures
        div_q64_spec(a, b) * b <= a as int * two64(),
        div_q64_spec(a, b) >= 0,
{
    if a < two64() {
        lemma_floor_times(a as int * two64(), b as int);
    } else {
        let q = a as int / b as int;
        let r = a as int % b as int;
        vstd::arithmetic::div_mod::lemma_fundamental_div_mod(a as int, b as int);
        vstd::arithmetic::div_mod::lemma_mod_bound(a as int, b as int);
        vstd::arithmetic::div_mod::lemma_div_pos_is_pos(a as int, b as int);
        let q_part = (q * two64()) % two128();
        vstd::arithmetic::div_mod::lemma_mod_bound(q * two64(), two128());
        assert(q * two64() >= 0) by (nonlinear_arith)
            requires q >= 0;
        vstd::arithmetic::div_mod::lemma_mod_self_0(two128());
        assert(q_part <= q * two64()) by {
            vstd::arithmetic::div_mod::lemma_fundamental_div_mod(q * two64(), two128());
            vstd::arithmetic::div_mod::lemma_div_pos_is_pos(q * two64(), two128());
            assert((q * two64()) / two128() * two128() >= 0) by (nonlinear_arith)
                requires (q * two64()) / two128() >= 0;
            assert(two128() * ((q * two64()) / two128()) >= 0) by (nonlinear_arith)
                requires (q * two64()) / two128() >= 0;
        }
        let r_part = if r < two64() {
            (r * two64()) / (b as int)
        } else {
            ((r / 0x1_0000_0000int) * 0x1_0000_0000int) / (b as int / 0x1_0000_0000int)
        };
        if r < two64() {
            lemma_floor_times(r * two64(), b as int);
            assert(r_part * b <= r * two64());
        } else {
            let big_b = b as int / 0x1_0000_0000int;
            let r2 = (r / 0x1_0000_0000int) * 0x1_0000_0000int;
            lemma_floor_times(r, 0x1_0000_0000int);
            lemma_floor_times(b as int, 0x1_0000_0000int);
            vstd::arithmetic::div_mod::lemma_fundamental_div_mod(b as int, 0x1_0000_0000int);
            vstd::arithmetic::div_mod::lemma_mod_bound(b as int, 0x1_0000_0000int);
            assert(big_b >= 1) by {
                lemma_div_is_ordered(0x1_0000_0000int, b as int, 0x1_0000_0000int);
            }
            lemma_floor_times(r2, big_b);
            assert(b as int <= 0x1_0000_0000int * (big_b + 1));
            assert(r_part * big_b <= r);
            assert(r_part * b <= r * two64()) by (nonlinear_arith)
                requires r_part * big_b <= r, b as int <= 0x1_0000_0000int * (big_b + 1), big_b >= 1, r_part >= 0,
                    r >= 0, two64() == 0x1_0000_0000_0000_0000int;
        }
        assert((q_part + r_part) * b <= a as int * two64()) by (nonlinear_arith)
            requires q_part <= q * two64(), r_part * b <= r * two64(), a as int == b * q + r, b > 0, q_part >= 0,
                two64() > 0;
        assert(r_part >= 0) by {
            if r < two64() {
                assert(r * two64() >= 0) by (nonlinear_arith) requires r >= 0;
                vstd::arithmetic::div_mod::lemma_div_pos_is_pos(r * two64(), b as int);
            }
        }
        if q_part + r_part > u128::MAX {
            assert(u128::MAX as int * b <= (q_part + r_part) * b) by (nonlinear_arith)
                requires q_part + r_part > u128::MAX, b > 0;
        }
    }
}

/// The token0 owed for the liquidity that `amount0` provides over a range is at
/// most `amount0`.
proof fn lemma_amount0_round_trip(amount0: i128, lower: u128, upper: u128, liquidity: i128)
    requires
        amount0 >= 0,
        lower < upper,
        0 <= liquidity <= liquidity_for_amount0(amount0, lower, upper),
    ensures
        amount_0_delta(lower, upper, liquidity as u128, false) <= amount0,
{
    let w = upper - lower;
    let product = (upper as int * lower as int) / two64();
    assert(upper as int * lower as int >= 0) by (nonlinear_arith);
    vstd::arithmetic::div_mod::lemma_div_pos_is_pos(upper as int * lower as int, two64());
    if product > 0 && liquidity > 0 {
        let numerator = clip_u128(amount0 as int * product);
        assert(amount0 as int * product >= 0) by (nonlinear_arith) requires amount0 >= 0, product >= 0;
        lemma_floor_times(numerator as int, w);
        assert(liquidity * w <= amount0 as int * product) by (nonlinear_arith)
            requires liquidity <= numerator as int / w, (numerator as int / w) * w <= numerator, numerator <= amount0
                as int * product, w > 0, liquidity >= 0;
        assert(liquidity * w >= 0) by (nonlinear_arith) requires liquidity >= 0, w > 0;
        let n0 = clip_u128(liquidity as int * w);
        lemma_div_at_most(n0 as int, amount0 as int, product);
    }
    assert(lower_of(lower, upper) == lower && upper_of(lower, upper) == upper);
    if liquidity == 0 {
        assert((liquidity as u128) as int * w == 0);
        if product > 0 {
            vstd::arithmetic::div_mod::lemma_basic_div(0, product);
        }
    }
}

/// The token1 owed for the liquidity that `amount1` provides over a range is at
/// most `amount1`.
proof fn lemma_amount1_round_trip(amount1: i128, lower: u128, upper: u128, liquidity: i128)
    requires
        amount1 >= 0,
        lower < upper,
        0 <= liquidity <= liquidity_for_amount1(amount1, lower, upper),
    ensures
        amount_1_delta(lower, upper, liquidity as u128, false) <= amount1,
{
    let w = upper - lower;
    if amount1 > 0 && liquidity > 0 {
        let d = div_q64_spec(amount1 as u128, w as u128);
        lemma_div_q64_at_most_exact(amount1 as u128, w as u128);
        assert(liquidity * w <= amount1 as int * two64()) by (nonlinear_arith)
            requires liquidity <= d, d * w <= amount1 as int * two64(), w > 0, liquidity >= 0;
        assert(liquidity * w >= 0) by (nonlinear_arith) requires liquidity >= 0, w > 0;
        let p = clip_u128(liquidity as int * w);
        lemma_div_at_most(p as int, amount1 as int, two64());
    }
    assert(lower_of(lower, upper) == lower && upper_of(lower, upper) == upper);
    if liquidity == 0 {
        assert((liquidity as u128) as int * w == 0);
        vstd::arithmetic::div_mod::lemma_basic_div(0, two64());
        vstd::arithmetic::div_mod::lemma_small_mod(0, two64() as nat);
    }
}

/// The amounts owed for the liquidity that two desired amounts provide never
/// exceed the desired amounts, wherever the price lies.
pub proof fn lemma_minted_amounts_within_desired(amount0: i128, amount1: i128, lower: u128, upper: u128, current: u128)
    requires
        lower < upper,
        amount0 >= 0,
        amount1 >= 0,
    ensures
        ({
            let liquidity = liquidity_for_amounts(amount0, amount1, lower, upper, current);
            let (a0, a1) = amounts_for_liquidity(liquidity, lower, upper, current);
            &&& 0 <= a0 <= amount0
            &&& 0 <= a1 <= amount1
        }),
{
    let liquidity = liquidity_for_amounts(amount0, amount1, lower, upper, current);
    if current <= lower {
        lemma_amount0_round_trip(amount0, lower, upper, liquidity);
    } else if current >= upper {
        lemma_amount1_round_trip(amount1, lower, upper, liquidity);
    } else {
        let l0 = liquidity_for_amount0(amount0, current, upper);
        let l1 = liquidity_for_amount1(amount1, lower, current);
        lemma_amount0_round_trip(amount0, current, upper, liquidity);
        lemma_amount1_round_trip(amount1, lower, current, liquidity);
    }
}

} // verus!
