//! Q64.64 fixed-point arithmetic.
use vstd::prelude::*;
use vstd::arithmetic::div_mod::*;
use vstd::arithmetic::mul::*;
use crate::math::constants::{two64, two128, Q64};
use crate::math::lemmas::{lemma_split_u128, lemma_shl64, lemma_div_mono};
use crate::math::wide::{mul_wide, div_wide};
use soroban_sdk::Env;

verus! {

/// 1.0 in Q64.64 format.
pub const ONE_X64: u128 = Q64;

/// The value clipped into `0..=u128::MAX` (for non-negative arguments).
pub open spec fn clip_u128(x: int) -> u128 {
    if x > u128::MAX { u128::MAX } else { x as u128 }
}

/// The value clipped into `i128::MIN..=i128::MAX`.
pub open spec fn clip_i128(x: int) -> i128 {
    if x > i128::MAX { i128::MAX } else if x < i128::MIN { i128::MIN } else { x as i128 }
}

/// Non-positive values map to zero, positive values keep their magnitude.
pub fn i128_to_u128_safe(x: i128) -> (r: u128)
    ensures
        r == (if x <= 0 { 0 } else { x as int }),
{
    if x <= 0 { 0 } else { x as u128 }
}

/// Values above `i128::MAX` saturate to `i128::MAX`.
pub fn u128_to_i128_saturating(x: u128) -> (r: i128)
    ensures
        r == clip_i128(x as int),
{
    if x > i128::MAX as u128 { i128::MAX } else { x as i128 }
}

/// `a * b`, saturating at `u128::MAX`.
pub fn sat_mul_u128(a: u128, b: u128) -> (r: u128)
    ensures
        r == clip_u128(a as int * b as int),
{
    match a.checked_mul(b) {
        Some(p) => p,
        None => u128::MAX,
    }
}

/// `a + b`, saturating at the bounds of `i128`.
pub fn sat_add_i128(a: i128, b: i128) -> (r: i128)
    ensures
        r == clip_i128(a as int + b as int),
{
    match a.checked_add(b) {
        Some(s) => s,
        None => if b > 0 { i128::MAX } else { i128::MIN },
    }
}

/// `a - b`, saturating at the bounds of `i128`.
pub fn sat_sub_i128(a: i128, b: i128) -> (r: i128)
    ensures
        r == clip_i128(a as int - b as int),
{
    match a.checked_sub(b) {
        Some(s) => s,
        None => if b < 0 { i128::MAX } else { i128::MIN },
    }
}

/// `a * b`, saturating at the bounds of `i128`.
pub fn sat_mul_i128(a: i128, b: i128) -> (r: i128)
    ensures
        r == clip_i128(a as int * b as int),
{
    match a.checked_mul(b) {
        Some(p) => p,
        None => {
            if (a > 0) == (b > 0) {
                proof {
                    assert(a as int * b as int > 0) by (nonlinear_arith)
                        requires (a > 0) == (b > 0), a != 0, b != 0;
                }
                i128::MAX
            } else {
                proof {
                    assert((a as int) * (b as int) < 0) by (nonlinear_arith)
                        requires (a > 0) != (b > 0), a != 0, b != 0;
                }
                i128::MIN
            }
        },
    }
}

/// `a - b` modulo `2^128`.
pub open spec fn wrap_sub_u128(a: u128, b: u128) -> u128 {
    if a >= b { (a - b) as u128 } else { (a - b + two128()) as u128 }
}

/// `a + b` modulo `2^128`.
pub open spec fn wrap_add_u128(a: u128, b: u128) -> u128 {
    if a + b > u128::MAX { (a + b - two128()) as u128 } else { (a + b) as u128 }
}

/// `a + b`, saturating at the bounds of `i32`.
pub fn sat_add_i32(a: i32, b: i32) -> (r: i32)
    ensures
        r == (if a + b > i32::MAX { i32::MAX as int } else if a + b < i32::MIN { i32::MIN as int } else { a + b }),
{
    match a.checked_add(b) {
        Some(s) => s,
        None => if b > 0 { i32::MAX } else { i32::MIN },
    }
}

/// Whether the Q64.64 product of `a` and `b` fits in 128 bits.
pub open spec fn mul_q64_fits(a: u128, b: u128) -> bool {
    (a as int * b as int) / two64() <= u128::MAX
}

/// Multiplies two Q64.64 numbers: `floor(a * b / 2^64)`.
pub fn mul_q64(a: u128, b: u128) -> (r: u128)
    requires
        mul_q64_fits(a, b),
    ensures
        r as int == (a as int * b as int) / two64(),
{
    let a_hi = a >> 64;
    let a_lo = a & 0xFFFFFFFFFFFFFFFF;
    let b_hi = b >> 64;
    let b_lo = b & 0xFFFFFFFFFFFFFFFF;
    proof {
        lemma_split_u128(a);
        lemma_split_u128(b);
        assert(a_hi as int * b_hi as int <= u128::MAX) by (nonlinear_arith)
            requires a_hi < two64(), b_hi < two64(), a_hi >= 0, b_hi >= 0;
        assert(a_hi as int * b_lo as int <= u128::MAX) by (nonlinear_arith)
            requires a_hi < two64(), b_lo < two64(), a_hi >= 0, b_lo >= 0;
        assert(a_lo as int * b_hi as int <= u128::MAX) by (nonlinear_arith)
            requires a_lo < two64(), b_hi < two64(), a_lo >= 0, b_hi >= 0;
        assert(a_lo as int * b_lo as int <= u128::MAX) by (nonlinear_arith)
            requires a_lo < two64(), b_lo < two64(), a_lo >= 0, b_lo >= 0;
    }
    let term_hh = a_hi * b_hi;
    let term_hl = a_hi * b_lo;
    let term_lh = a_lo * b_hi;
    let term_ll = a_lo * b_lo;
    proof {
        lemma_split_u128(term_ll);
        let q = term_ll >> 64u128;
        let rr = term_ll & 0xFFFF_FFFF_FFFF_FFFFu128;
        let t = term_hh as int * two64() + term_hl as int + term_lh as int + q as int;
        let s = two64();
        let (ai, bi, ah, al, bh, bl) = (a as int, b as int, a_hi as int, a_lo as int, b_hi as int, b_lo as int);
        assert(ai * bi == ah * s * bi + al * bi) by (nonlinear_arith)
            requires ai == ah * s + al;
        assert(ah * s * bi == (ah * bh) * (s * s) + (ah * bl) * s) by (nonlinear_arith)
            requires bi == bh * s + bl;
        assert(al * bi == (al * bh) * s + al * bl) by (nonlinear_arith)
            requires bi == bh * s + bl;
        assert((term_hh as int) * (s * s) + (term_hl as int) * s + (term_lh as int) * s + (q as int) * s
            == s * t) by (nonlinear_arith)
            requires t == term_hh as int * s + term_hl as int + term_lh as int + q as int;
        assert(ai * bi == s * t + rr as int);
        lemma_div_multiples_vanish_fancy(t, rr as int, two64());
        assert(t <= u128::MAX);
        assert(term_hh < two64()) by (nonlinear_arith)
            requires term_hh as int * two64() <= u128::MAX, term_hh >= 0;
        lemma_shl64(term_hh);
    }
    (term_hh << 64) + term_hl + term_lh + (term_ll >> 64)
}

/// What `div_q64` computes: `floor(a * 2^64 / b)` where that is exact, and
/// otherwise a quotient-plus-approximate-remainder composition.
pub open spec fn div_q64_spec(a: u128, b: u128) -> int {
    if b == 0 {
        u128::MAX as int
    } else if a < two64() {
        (a as int * two64()) / (b as int)
    } else {
        let q = a as int / b as int;
        let r = a as int % b as int;
        let q_part = (q * two64()) % two128();
        let r_part = if r < two64() {
            (r * two64()) / (b as int)
        } else {
            ((r / 0x1_0000_0000int) * 0x1_0000_0000int) / (b as int / 0x1_0000_0000int)
        };
        if q_part + r_part > u128::MAX { u128::MAX as int } else { q_part + r_part }
    }
}

/// Divides in Q64.64 format: `(a * 2^64) / b`; division by zero gives `u128::MAX`.
pub fn div_q64(a: u128, b: u128) -> (r: u128)
    ensures
        r as int == div_q64_spec(a, b),
        b > 0 && (a < two64() || (a / b < two64() && a % b < two64())) ==> r as int == (a as int
            * two64()) / (b as int),
{
    if b == 0 {
        return u128::MAX;
    }
    if a <= 0xFFFF_FFFF_FFFF_FFFF {
        proof {
            lemma_shl64(a);
            assert((a as int * two64()) / (b as int) <= a as int * two64()) by {
                lemma_div_mono(a as int * two64(), a as int * two64(), b as int, 1);
            }
        }
        return (a << 64) / b;
    }
    let q = a / b;
    let r = a % b;
    proof {
        lemma_shl64(q);
        lemma_fundamental_div_mod(a as int, b as int);
    }
    let q_part = q << 64;
    let r_part = if r <= 0xFFFF_FFFF_FFFF_FFFF {
        proof {
            lemma_shl64(r);
            assert((r as int * two64()) / (b as int) < two64()) by {
                lemma_div_by_multiple_is_strongly_ordered_helper(r as int, b as int);
            }
        }
        (r << 64) / b
    } else {
        proof {
            assert((r >> 32u128) << 32u128 == (r / 0x1_0000_0000u128) * 0x1_0000_0000u128) by (bit_vector);
            assert(r >> 32u128 == r / 0x1_0000_0000u128) by (bit_vector);
            assert(b >> 32u128 == b / 0x1_0000_0000u128) by (bit_vector);
            assert(b as int / 0x1_0000_0000int >= 1) by {
                lemma_div_mono(0x1_0000_0000int, b as int, 0x1_0000_0000int, 0x1_0000_0000int);
            }
        }
        let bs = b >> 32;
        let d = if bs > 1 { bs } else { 1 };
        ((r >> 32) << 32) / d
    };
    proof {
        if q < two64() && r < two64() {
            let s = two64();
            assert(a as int * s == (q as int * s) * b as int + r as int * s) by (nonlinear_arith)
                requires a as int == b as int * q as int + r as int;
            lemma_fundamental_div_mod(r as int * s, b as int);
            let rq = (r as int * s) / (b as int);
            let rm = (r as int * s) % (b as int);
            assert(a as int * s == (q as int * s + rq) * b as int + rm) by (nonlinear_arith)
                requires a as int * s == (q as int * s) * b as int + r as int * s,
                    r as int * s == b as int * rq + rm;
            lemma_mod_bound(r as int * s, b as int);
            lemma_fundamental_div_mod_converse(a as int * s, b as int, q as int * s + rq, rm);
            assert(q as int * s + rq <= u128::MAX) by (nonlinear_arith)
                requires q < s, rq < s, q >= 0, s == two64();
        }
    }
    q_part.saturating_add(r_part)
}

/// Helper: `r * 2^64 / b < 2^64` whenever `r < b`.
proof fn lemma_div_by_multiple_is_strongly_ordered_helper(r: int, b: int)
    requires
        0 <= r < b,
    ensures
        (r * two64()) / b < two64(),
{
    assert(r * two64() < two64() * b) by (nonlinear_arith)
        requires 0 <= r < b, two64() > 0;
    lemma_div_by_multiple(two64(), b);
    lemma_div_is_ordered(r * two64(), two64() * b, b);
    if (r * two64()) / b == two64() {
        lemma_fundamental_div_mod(r * two64(), b);
        lemma_mod_bound(r * two64(), b);
        assert(false) by (nonlinear_arith)
            requires r * two64() == b * two64() + (r * two64()) % b, (r * two64()) % b >= 0, r < b, two64() > 0;
    }
}

/// `ceil(n / d)` for `d > 0`; division by zero gives zero.
pub fn div_round_up(numerator: u128, denominator: u128) -> (r: u128)
    ensures
        denominator == 0 ==> r == 0,
        denominator > 0 ==> r as int == (numerator as int + denominator as int - 1) / (denominator as int),
        denominator > 0 ==> r as int == (if numerator % denominator == 0 { (numerator / denominator) as int
            } else { numerator / denominator + 1 }),
{
    if denominator == 0 {
        return 0;
    }
    let result = numerator / denominator;
    proof {
        let n = numerator as int;
        let d = denominator as int;
        lemma_fundamental_div_mod(n, d);
        lemma_mod_bound(n, d);
        let q = n / d;
        let m = n % d;
        if m == 0 {
            assert(n + d - 1 == q * d + (d - 1)) by (nonlinear_arith)
                requires n == d * q + m, m == 0;
            lemma_fundamental_div_mod_converse(n + d - 1, d, q, d - 1);
        } else {
            assert(n + d - 1 == (q + 1) * d + (m - 1)) by (nonlinear_arith)
                requires n == d * q + m;
            lemma_fundamental_div_mod_converse(n + d - 1, d, q + 1, m - 1);
        }
        if denominator == 1 {
            assert(numerator % denominator == 0);
        } else {
            lemma_div_mono(n, n, d, 1);
            assert(q < u128::MAX) by (nonlinear_arith)
                requires n == d * q + m, d >= 2, n <= u128::MAX, q >= 0, m >= 0;
        }
    }
    if numerator % denominator != 0 {
        result.saturating_add(1)
    } else {
        result
    }
}

/// `floor(a * b / denominator)` computed at full 256-bit width, saturating at
/// `u128::MAX`. A zero denominator is rejected.
pub fn mul_div(env: &Env, a: u128, b: u128, denominator: u128) -> (r: u128)
    requires
        denominator != 0,
    ensures
        r == clip_u128((a as int * b as int) / denominator as int),
{
    let (hi, lo) = mul_wide(a, b);
    div_wide(hi, lo, denominator)
}

} // verus!
