//! Order properties of the tick-to-price conversion.
use vstd::prelude::*;
use vstd::arithmetic::div_mod::{lemma_div_is_ordered, lemma_div_is_ordered_by_denominator, lemma_div_plus_one};
use vstd::arithmetic::mul::lemma_mul_inequality;
use crate::math::constants::{two64, MAX_TICK, MIN_TICK, Q64};
use crate::math::sqrt_price::{
    abs_tick_of, capped_mul_q64, is_floor_tick, ratio_upto, sqrt_ratio_at_tick, tick_factor, tick_mask,
};

verus! {

/// The low `j` bits of `n`.
pub open spec fn low_bits(n: u32, j: u32) -> u32 {
    n & (((1u32 << j) as u32) - 1u32) as u32
}

/// The product of the factors of the low `j` bits when all of them are set.
spec fn all_ones_ratio(j: nat) -> u128 {
    if j == 0 {
        18446744073709551616u128
    } else if j == 1 {
        18447666387855959851u128
    } else if j == 2 {
        18449511154494745446u128
    } else if j == 3 {
        18453201241220755939u128
    } else if j == 4 {
        18460583628983133364u128
    } else if j == 5 {
        18475357265883657903u128
    } else if j == 6 {
        18504940018287354207u128
    } else if j == 7 {
        18564247702699447982u128
    } else if j == 8 {
        18683433917872171726u128
    } else if j == 9 {
        18924106859586736222u128
    } else if j == 10 {
        19414793453272501765u128
    } else if j == 11 {
        20434665844882988560u128
    } else if j == 12 {
        22637948723084169914u128
    } else if j == 13 {
        27782807824333956501u128
    } else if j == 14 {
        41846029888805467991u128
    } else if j == 15 {
        94931537120022858097u128
    } else if j == 16 {
        488565748650866588757u128
    } else if j == 17 {
        12940409664010732584561u128
    } else if j == 18 {
        9078164368957539032564580u128
    } else if j == 19 {
        4467844760619635883973604166228u128
    } else {
        0u128
    }
}

proof fn lemma_low_bits_step(n: u32, j: u32)
    by (bit_vector)
    requires
        j < 20,
    ensures
        low_bits(n, (j + 1) as u32) == low_bits(n, j) + (n & (1u32 << j)),
        low_bits(n, j) < (1u32 << j),
        (n & (1u32 << j)) == 0u32 || (n & (1u32 << j)) == (1u32 << j),
        (1u32 << j) > 0u32,
        low_bits(0xFFFFFu32, j) == ((1u32 << j) - 1u32) as u32,
        (0xFFFFFu32 & (1u32 << j)) != 0u32,
{
}

proof fn lemma_low_bits_all(n: u32)
    by (bit_vector)
    requires
        n < 0x100000u32,
    ensures
        low_bits(n, 20) == n,
{
}

proof fn lemma_low_bits_zero(n: u32)
    by (bit_vector)
    ensures
        low_bits(n, 0) == 0u32,
{
}

/// With every low bit set, the accumulated product is `all_ones_ratio`.
proof fn lemma_all_ones(j: nat)
    requires
        j < 20,
    ensures
        ratio_upto(0xFFFFFu32, j) == all_ones_ratio(j),
    decreases j,
{
    if j > 0 {
        lemma_all_ones((j - 1) as nat);
        lemma_low_bits_step(0xFFFFFu32, (j - 1) as u32);
    }
}

/// With every low bit set, the product stays below the next factor.
proof fn lemma_all_ones_below_next(j: nat)
    requires
        j < 20,
    ensures
        ratio_upto(0xFFFFFu32, j) < tick_factor(j),
{
    lemma_all_ones(j);
}

/// Multiplying by a factor of at least 1.0 never decreases a value.
proof fn lemma_capped_mul_grows(x: u128, f: u128)
    requires
        f >= two64(),
    ensures
        capped_mul_q64(x, f) >= x,
{
    lemma_mul_inequality(two64(), f as int, x as int);
    assert(x as int * two64() <= x as int * f as int) by (nonlinear_arith)
        requires two64() <= f, x >= 0;
    vstd::arithmetic::div_mod::lemma_div_by_multiple(x as int, two64());
    assert((x as int * two64()) / two64() == x) by (nonlinear_arith)
        requires (x as int * two64()) / two64() == x as int;
    lemma_div_is_ordered(x as int * two64(), x as int * f as int, two64());
}

/// The capped Q64.64 product is monotone in its first argument, and strictly
/// so for factors above 1.0 while the larger product is not capped.
proof fn lemma_capped_mul_mono(x: u128, y: u128, f: u128)
    requires
        x <= y,
    ensures
        capped_mul_q64(x, f) <= capped_mul_q64(y, f),
        x < y && f > two64() && capped_mul_q64(y, f) < u128::MAX ==> capped_mul_q64(x, f) < capped_mul_q64(y, f),
{
    lemma_mul_inequality(x as int, y as int, f as int);
    lemma_div_is_ordered(x as int * f as int, y as int * f as int, two64());
    if x < y && f > two64() && capped_mul_q64(y, f) < u128::MAX {
        assert(x as int * f as int + two64() <= y as int * f as int) by (nonlinear_arith)
            requires x < y, f > two64();
        lemma_div_is_ordered(x as int * f as int + two64(), y as int * f as int, two64());
        lemma_div_plus_one(x as int * f as int, two64());
    }
}

/// Every tick factor is above 1.0.
proof fn lemma_factor_above_one(j: nat)
    requires
        j < 20,
    ensures
        tick_factor(j) > two64(),
{
}

/// The accumulated product is at least 1.0.
proof fn lemma_ratio_upto_at_least_one(n: u32, j: nat)
    requires
        j <= 20,
    ensures
        ratio_upto(n, j) >= Q64,
    decreases j,
{
    if j > 0 {
        lemma_ratio_upto_at_least_one(n, (j - 1) as nat);
        lemma_factor_above_one((j - 1) as nat);
        lemma_capped_mul_grows(ratio_upto(n, (j - 1) as nat), tick_factor((j - 1) as nat));
    }
}

/// The accumulated product over the low `j` bits follows the order of those
/// bits read as a number: weakly always, strictly while the larger product is
/// not capped.
proof fn lemma_ratio_upto_mono(n: u32, m: u32, j: nat)
    requires
        j <= 20,
        low_bits(n, j as u32) <= low_bits(m, j as u32),
    ensures
        ratio_upto(n, j) <= ratio_upto(m, j),
        low_bits(n, j as u32) < low_bits(m, j as u32) && ratio_upto(m, j) < u128::MAX ==> ratio_upto(n, j) < ratio_upto(m, j),
    decreases j,
{
    lemma_low_bits_zero(n);
    lemma_low_bits_zero(m);
    if j > 0 {
        let i = (j - 1) as nat;
        lemma_low_bits_step(n, i as u32);
        lemma_low_bits_step(m, i as u32);
        assert((i + 1) as u32 == j as u32);
        let bn = n & tick_mask(i) != 0;
        let bm = m & tick_mask(i) != 0;
        let rn = ratio_upto(n, i);
        let rm = ratio_upto(m, i);
        let f = tick_factor(i);
        lemma_factor_above_one(i);
        lemma_ratio_upto_at_least_one(m, i);
        if bn == bm {
            lemma_ratio_upto_mono(n, m, i);
            if bn {
                lemma_capped_mul_mono(rn, rm, f);
                lemma_capped_mul_grows(rm, f);
            }
        } else if !bn && bm {
            lemma_ratio_upto_mono(n, 0xFFFFFu32, i);
            lemma_all_ones_below_next(i);
            lemma_capped_mul_mono(Q64, rm, f);
            assert(capped_mul_q64(Q64, f) == f) by {
                vstd::arithmetic::div_mod::lemma_div_by_multiple(f as int, two64());
                assert(Q64 as int * f as int == f as int * two64()) by (nonlinear_arith);
            }
        } else {
            assert(false);
        }
    }
}

proof fn lemma_max_tick_bits()
    by (bit_vector)
    ensures
        887272u32 & (1u32 << 0u32) == 0u32,
        887272u32 & (1u32 << 1u32) == 0u32,
        887272u32 & (1u32 << 2u32) == 0u32,
        887272u32 & (1u32 << 3u32) != 0u32,
        887272u32 & (1u32 << 4u32) == 0u32,
        887272u32 & (1u32 << 5u32) != 0u32,
        887272u32 & (1u32 << 6u32) != 0u32,
        887272u32 & (1u32 << 7u32) != 0u32,
        887272u32 & (1u32 << 8u32) != 0u32,
        887272u32 & (1u32 << 9u32) == 0u32,
        887272u32 & (1u32 << 10u32) == 0u32,
        887272u32 & (1u32 << 11u32) != 0u32,
        887272u32 & (1u32 << 12u32) == 0u32,
        887272u32 & (1u32 << 13u32) == 0u32,
        887272u32 & (1u32 << 14u32) == 0u32,
        887272u32 & (1u32 << 15u32) != 0u32,
        887272u32 & (1u32 << 16u32) != 0u32,
        887272u32 & (1u32 << 17u32) == 0u32,
        887272u32 & (1u32 << 18u32) != 0u32,
        887272u32 & (1u32 << 19u32) != 0u32,
{
}

/// The product for the largest tick stays below `u128::MAX`.
proof fn lemma_max_tick_ratio()
    ensures
        ratio_upto(887272u32, 20) == 340269576638287422966549074272214728613u128,
{
    lemma_max_tick_bits();
    assert(ratio_upto(887272u32, 0) == Q64);
    assert(tick_mask(0) == (1u32 << 0u32));
    assert(887272u32 & tick_mask(0) == 0u32);
    assert(ratio_upto(887272u32, 1) == 18446744073709551616u128);
    assert(ratio_upto(887272u32, 2) == 18446744073709551616u128);
    assert(ratio_upto(887272u32, 3) == 18446744073709551616u128);
    assert(ratio_upto(887272u32, 4) == 18454123878217468680u128);
    assert(ratio_upto(887272u32, 5) == 18454123878217468680u128);
    assert(ratio_upto(887272u32, 6) == 18483672631708939319u128);
    assert(ratio_upto(887272u32, 7) == 18542912154892181979u128);
    assert(ratio_upto(887272u32, 8) == 18661961391544013925u128);
    assert(ratio_upto(887272u32, 9) == 18902357732281469084u128);
    assert(ratio_upto(887272u32, 10) == 18902357732281469084u128);
    assert(ratio_upto(887272u32, 11) == 18902357732281469084u128);
    assert(ratio_upto(887272u32, 12) == 20940425859517241258u128);
    assert(ratio_upto(887272u32, 13) == 20940425859517241258u128);
    assert(ratio_upto(887272u32, 14) == 20940425859517241258u128);
    assert(ratio_upto(887272u32, 15) == 20940425859517241258u128);
    assert(ratio_upto(887272u32, 16) == 107770032462322190433u128);
    assert(ratio_upto(887272u32, 17) == 2854453824111132360191u128);
    assert(ratio_upto(887272u32, 18) == 2854453824111132360191u128);
    assert(ratio_upto(887272u32, 19) == 1404827677068165313581699521u128);
    assert(ratio_upto(887272u32, 20) == 340269576638287422966549074272214728613u128);
}

/// Up to the largest tick the product is never capped.
proof fn lemma_ratio_below_max(n: u32)
    requires
        n <= 887272,
    ensures
        ratio_upto(n, 20) < u128::MAX,
{
    lemma_low_bits_all(n);
    lemma_low_bits_all(887272u32);
    lemma_ratio_upto_mono(n, 887272u32, 20);
    lemma_max_tick_ratio();
}

/// Each factor exceeds the product of all the lower factors by a margin of more
/// than 1/32768 of itself.
proof fn lemma_factor_margin(i: nat)
    requires
        i < 20,
    ensures
        tick_factor(i) as int * 32767 >= all_ones_ratio(i) as int * 32768 + 32768 * 19,
{
}

/// Multiplying two values by the same factor (at least 1.0) keeps their
/// relative gap, up to one unit of rounding per value.
proof fn lemma_gap_mul(x: u128, y: u128, f: u128, s: int)
    requires
        x <= y,
        f >= two64(),
        s >= 0,
        (y - x) * 32768 >= y + s + 32768,
        capped_mul_q64(y, f) < u128::MAX,
    ensures
        (capped_mul_q64(y, f) - capped_mul_q64(x, f)) * 32768 >= capped_mul_q64(y, f) + s,
{
    let d = two64();
    let a = y as int * f as int;
    let b = x as int * f as int;
    lemma_mul_inequality(x as int, y as int, f as int);
    lemma_div_is_ordered(b, a, d);
    let yq = a / d;
    let xq = b / d;
    assert(capped_mul_q64(y, f) == yq);
    assert(capped_mul_q64(x, f) == xq);
    vstd::arithmetic::div_mod::lemma_fundamental_div_mod(a, d);
    vstd::arithmetic::div_mod::lemma_fundamental_div_mod(b, d);
    vstd::arithmetic::div_mod::lemma_mod_bound(a, d);
    vstd::arithmetic::div_mod::lemma_mod_bound(b, d);
    let g = (y - x) as int;
    assert(g * f * 32768 >= (y + s + 32768) * f) by (nonlinear_arith)
        requires g * 32768 >= y + s + 32768, f >= 0;
    assert((y + s + 32768) * f >= a + s * d + 32768 * d) by (nonlinear_arith)
        requires f >= d, s >= 0, y >= 0, a == y * f;
    assert(a - b == g * f) by (nonlinear_arith)
        requires a == y * f, b == x * f, g == y - x;
    assert(d * (yq - xq) > a - b - d);
    assert(d * ((yq - xq) * 32768 - yq - s) > 0) by (nonlinear_arith)
        requires
            d * (yq - xq) > a - b - d,
            a - b == g * f,
            g * f * 32768 >= a + s * d + 32768 * d,
            d * yq <= a,
            d > 0;
    assert((yq - xq) * 32768 - yq - s > 0) by (nonlinear_arith)
        requires d * ((yq - xq) * 32768 - yq - s) > 0, d > 0;
}

/// When the low `j` bits of `n` read as a smaller number than those of `m`, the
/// product for `m` exceeds that for `n` by more than 1/32768 of itself, with a
/// margin that shrinks by one rounding unit per remaining bit.
proof fn lemma_ratio_gap(n: u32, m: u32, j: nat)
    requires
        j <= 20,
        low_bits(n, j as u32) < low_bits(m, j as u32),
        ratio_upto(m, j) < u128::MAX,
    ensures
        (ratio_upto(m, j) - ratio_upto(n, j)) * 32768 >= ratio_upto(m, j) + 32768 * (20 - j),
    decreases j,
{
    lemma_low_bits_zero(n);
    lemma_low_bits_zero(m);
    let i = (j - 1) as nat;
    lemma_low_bits_step(n, i as u32);
    lemma_low_bits_step(m, i as u32);
    assert((i + 1) as u32 == j as u32);
    let bn = n & tick_mask(i) != 0;
    let bm = m & tick_mask(i) != 0;
    let rn = ratio_upto(n, i);
    let rm = ratio_upto(m, i);
    let f = tick_factor(i);
    lemma_factor_above_one(i);
    lemma_ratio_upto_at_least_one(m, i);
    lemma_ratio_upto_at_least_one(n, i);
    if bm {
        lemma_capped_mul_grows(rm, f);
    }
    if bn == bm {
        lemma_ratio_gap(n, m, i);
        if bn {
            lemma_ratio_upto_mono(n, m, i);
            lemma_gap_mul(rn, rm, f, 32768 * (20 - j));
        }
    } else if !bn && bm {
        lemma_ratio_upto_mono(n, 0xFFFFFu32, i);
        lemma_all_ones(i);
        lemma_capped_mul_mono(Q64, rm, f);
        assert(capped_mul_q64(Q64, f) == f) by {
            vstd::arithmetic::div_mod::lemma_div_by_multiple(f as int, two64());
            assert(Q64 as int * f as int == f as int * two64()) by (nonlinear_arith);
        }
        lemma_factor_margin(i);
        let y = ratio_upto(m, j);
        assert(y >= f);
        assert(rn <= all_ones_ratio(i));
        assert((y - rn) * 32768 >= y + 32768 * (20 - j)) by (nonlinear_arith)
            requires
                y >= f,
                rn <= all_ones_ratio(i),
                f as int * 32767 >= all_ones_ratio(i) as int * 32768 + 32768 * 19,
                20 - j <= 19;
    } else {
        assert(false);
    }
}

proof fn lemma_high_bit_clear(a: u32)
    by (bit_vector)
    requires
        a < 524288u32,
    ensures
        a & (1u32 << 19u32) == 0u32,
{
}

/// From tick -524287 up to tick 0 the square-root price strictly increases.
proof fn lemma_sqrt_ratio_strict_negative(tick: i32)
    requires
        -524288 < tick < 0,
    ensures
        sqrt_ratio_at_tick(tick) < sqrt_ratio_at_tick((tick + 1) as i32),
{
    let m = u128::MAX as int;
    let next = (tick + 1) as i32;
    let a = abs_tick_of(tick);
    lemma_ratio_upto_at_least_one(a, 20);
    if next == 0 {
        assert(a == 1);
        lemma_one_ratio();
        lemma_factor_above_one(0);
        let f0 = tick_factor(0) as int;
        vstd::arithmetic::div_mod::lemma_fundamental_div_mod(m, f0);
        vstd::arithmetic::div_mod::lemma_mod_bound(m, f0);
        assert(m / f0 < two64()) by (nonlinear_arith)
            requires m == f0 * (m / f0) + m % f0, m % f0 >= 0, f0 > two64(), m < two64() * two64(), two64() > 0;
    } else {
        let b = abs_tick_of(next);
        assert(b + 1 == a);
        lemma_low_bits_all(a);
        lemma_low_bits_all(b);
        lemma_ratio_below_max(a);
        lemma_ratio_gap(b, a, 20);
        lemma_ratio_upto_at_least_one(b, 20);
        lemma_ratio_upto_mono(b, a, 20);
        let ra = ratio_upto(a, 20) as int;
        let rb = ratio_upto(b, 20) as int;
        lemma_high_bit_clear(a);
        assert(tick_mask(19) == (1u32 << 19u32));
        assert(ratio_upto(a, 20) == ratio_upto(a, 19));
        lemma_low_bits_step(a, 19);
        lemma_low_bits_step(0xFFFFFu32, 19);
        lemma_ratio_upto_mono(a, 0xFFFFFu32, 19);
        lemma_all_ones(19);
        assert(ra < 0x100000000000000000000000000int);
        let q = m / ra;
        vstd::arithmetic::div_mod::lemma_fundamental_div_mod(m, ra);
        vstd::arithmetic::div_mod::lemma_mod_bound(m, ra);
        assert(m * (ra - rb) >= ra * rb) by (nonlinear_arith)
            requires (ra - rb) * 32768 >= ra, rb <= ra, ra < 0x100000000000000000000000000int,
                m == 0xffffffffffffffffffffffffffffffff, rb >= 0;
        assert((q + 1) * rb <= m) by (nonlinear_arith)
            requires q * ra <= m, m * (ra - rb) >= ra * rb, ra > 0, rb > 0, q >= 0;
        vstd::arithmetic::div_mod::lemma_div_is_ordered((q + 1) * rb, m, rb);
        vstd::arithmetic::div_mod::lemma_div_by_multiple(q + 1, rb);
        assert(((q + 1) * rb) / rb == q + 1) by (nonlinear_arith)
            requires ((q + 1) * rb) / rb == q + 1;
    }
}

/// The square-root price never decreases from one tick to the next, and from
/// tick -524287 upwards it strictly increases.
pub proof fn lemma_sqrt_ratio_monotone(tick: i32)
    requires
        MIN_TICK <= tick < MAX_TICK,
    ensures
        sqrt_ratio_at_tick(tick) <= sqrt_ratio_at_tick((tick + 1) as i32),
        tick > -524288 ==> sqrt_ratio_at_tick(tick) < sqrt_ratio_at_tick((tick + 1) as i32),
{
    let next = (tick + 1) as i32;
    if -524288 < tick < 0 {
        lemma_sqrt_ratio_strict_negative(tick);
    }
    if tick >= 0 {
        let a = tick as u32;
        let b = next as u32;
        lemma_low_bits_all(a);
        lemma_low_bits_all(b);
        lemma_ratio_below_max(b);
        lemma_ratio_upto_mono(a, b, 20);
        if tick == 0 {
            lemma_zero_ratio(20);
        }
    } else {
        let a = abs_tick_of(tick);
        let b = abs_tick_of(next);
        lemma_low_bits_all(a);
        lemma_low_bits_all(b);
        lemma_ratio_upto_at_least_one(a, 20);
        lemma_ratio_upto_at_least_one(b, 20);
        if next == 0 {
            assert(a == 1);
            lemma_ratio_upto_mono(1u32, a, 20);
            lemma_one_ratio();
            assert(u128::MAX as int / ratio_upto(a, 20) as int <= Q64) by {
                lemma_div_is_ordered_by_denominator(u128::MAX as int, tick_factor(0) as int, ratio_upto(a, 20) as int);
                lemma_factor_above_one(0);
                vstd::arithmetic::div_mod::lemma_div_by_multiple(two64(), tick_factor(0) as int);
                assert(u128::MAX as int / tick_factor(0) as int <= two64()) by (nonlinear_arith)
                    requires tick_factor(0) > two64(), u128::MAX < two64() * two64();
            }
        } else {
            lemma_ratio_upto_mono(b, a, 20);
            lemma_div_is_ordered_by_denominator(u128::MAX as int, ratio_upto(b, 20) as int, ratio_upto(a, 20) as int);
        }
    }
}

/// Without set bits the product is 1.0.
proof fn lemma_zero_ratio(j: nat)
    requires
        j <= 20,
    ensures
        ratio_upto(0u32, j) == Q64,
    decreases j,
{
    if j > 0 {
        lemma_zero_ratio((j - 1) as nat);
        lemma_small_bits(tick_mask((j - 1) as nat), 1);
    }
}

proof fn lemma_small_bits(x: u32, i: u32)
    by (bit_vector)
    requires
        1u32 <= i < 32u32,
    ensures
        0u32 & x == 0u32,
        1u32 & (1u32 << i) == 0u32,
        1u32 & (1u32 << 0u32) == 1u32,
{
}

/// For tick 1 the product over the low `j >= 1` bits is the first factor.
proof fn lemma_one_ratio_upto(j: nat)
    requires
        1 <= j <= 20,
    ensures
        ratio_upto(1u32, j) == tick_factor(0),
    decreases j,
{
    lemma_small_bits(0, 1);
    if j == 1 {
        assert(ratio_upto(1u32, 0) == Q64);
        vstd::arithmetic::div_mod::lemma_div_by_multiple(tick_factor(0) as int, two64());
        assert(Q64 as int * tick_factor(0) as int == tick_factor(0) as int * two64()) by (nonlinear_arith);
    } else {
        lemma_one_ratio_upto((j - 1) as nat);
        lemma_small_bits(0, (j - 1) as u32);
    }
}

/// For tick 1 the product is the first factor.
proof fn lemma_one_ratio()
    ensures
        ratio_upto(1u32, 20) == tick_factor(0),
{
    lemma_one_ratio_upto(20);
}

/// Between any two ticks the square-root price never decreases, and from tick
/// -524287 upwards (which covers every tick from -300000 to 300000) it strictly
/// increases. Below that, neighbouring ticks can share a price: ticks -887272 and
/// -887271 both have price 1.
pub proof fn lemma_sqrt_ratio_ordered(lo: i32, hi: i32)
    requires
        MIN_TICK <= lo <= hi <= MAX_TICK,
    ensures
        sqrt_ratio_at_tick(lo) <= sqrt_ratio_at_tick(hi),
        -524288 < lo < hi ==> sqrt_ratio_at_tick(lo) < sqrt_ratio_at_tick(hi),
    decreases hi - lo,
{
    if lo < hi {
        lemma_sqrt_ratio_ordered(lo, (hi - 1) as i32);
        lemma_sqrt_ratio_monotone((hi - 1) as i32);
    }
}

/// Converting a tick from -524287 up to its price and back gives the tick: it
/// is the only tick whose price interval contains its price, which lies above the
/// price of the lowest tick.
pub proof fn lemma_tick_price_round_trip(tick: i32)
    requires
        -524288 < tick <= MAX_TICK,
    ensures
        sqrt_ratio_at_tick(MIN_TICK) <= sqrt_ratio_at_tick(tick),
        forall|r: int| #[trigger] is_floor_tick(r, sqrt_ratio_at_tick(tick)) ==> r == tick,
{
    lemma_sqrt_ratio_ordered(MIN_TICK, tick);
    assert forall|r: int| #[trigger] is_floor_tick(r, sqrt_ratio_at_tick(tick)) implies r == tick by {
        if r < tick {
            lemma_sqrt_ratio_ordered((r + 1) as i32, tick);
        } else if r > tick {
            lemma_sqrt_ratio_ordered(tick, r as i32);
        }
    }
}

/// The tick whose price interval contains a square-root price: the greatest
/// tick in range whose price does not exceed it, `MIN_TICK` when it lies below
/// every tick's price.
pub open spec fn tick_at_sqrt_price(sqrt_price_x64: u128) -> i32 {
    if sqrt_ratio_at_tick(MIN_TICK) > sqrt_price_x64 {
        MIN_TICK
    } else {
        choose|t: i32| is_floor_tick(t as int, sqrt_price_x64)
    }
}

/// A price has at most one floor tick.
pub proof fn lemma_floor_tick_unique(a: int, b: int, price: u128)
    requires
        is_floor_tick(a, price),
        is_floor_tick(b, price),
    ensures
        a == b,
{
    if a < b {
        lemma_sqrt_ratio_ordered((a + 1) as i32, b as i32);
    } else if b < a {
        lemma_sqrt_ratio_ordered((b + 1) as i32, a as i32);
    }
}

/// A floor tick is the tick of its price.
pub proof fn lemma_floor_tick_is_tick_at(t: int, price: u128)
    requires
        is_floor_tick(t, price),
    ensures
        tick_at_sqrt_price(price) == t,
        sqrt_ratio_at_tick(MIN_TICK) <= price,
{
    lemma_sqrt_ratio_ordered(MIN_TICK, t as i32);
    let c = choose|x: i32| is_floor_tick(x as int, price);
    assert(is_floor_tick((t as i32) as int, price));
    lemma_floor_tick_unique(c as int, t, price);
}

proof fn lemma_floor_tick_below(t: int, price: u128)
    requires
        MIN_TICK <= t <= MAX_TICK,
        sqrt_ratio_at_tick(MIN_TICK) <= price,
        t == MAX_TICK || sqrt_ratio_at_tick((t + 1) as i32) > price,
    ensures
        exists|x: i32| is_floor_tick(x as int, price),
    decreases t - MIN_TICK,
{
    if sqrt_ratio_at_tick(t as i32) <= price {
        assert(is_floor_tick((t as i32) as int, price));
    } else {
        lemma_floor_tick_below(t - 1, price);
    }
}

/// Every price at or above the lowest tick's price lies in the interval of
/// exactly the tick `tick_at_sqrt_price` names.
pub proof fn lemma_tick_at_sqrt_price(price: u128)
    ensures
        sqrt_ratio_at_tick(MIN_TICK) <= price ==> is_floor_tick(tick_at_sqrt_price(price) as int, price),
        MIN_TICK <= tick_at_sqrt_price(price) <= MAX_TICK,
{
    if sqrt_ratio_at_tick(MIN_TICK) <= price {
        lemma_floor_tick_below(MAX_TICK as int, price);
    }
}

} // verus!
