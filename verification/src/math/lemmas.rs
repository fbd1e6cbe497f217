//! Arithmetic facts shared by the fixed-point routines.
use vstd::prelude::*;
use vstd::arithmetic::div_mod::*;
use vstd::arithmetic::mul::*;
use crate::math::constants::{two64, two128};

verus! {

/// Splitting a 128-bit word into its high and low 64-bit halves.
pub proof fn lemma_split_u128(x: u128)
    ensures
        x >> 64u128 == x / 0x1_0000_0000_0000_0000u128,
        x & 0xFFFF_FFFF_FFFF_FFFFu128 == x % 0x1_0000_0000_0000_0000u128,
        x == (x >> 64u128) * two64() + (x & 0xFFFF_FFFF_FFFF_FFFFu128),
        (x >> 64u128) < two64(),
        (x & 0xFFFF_FFFF_FFFF_FFFFu128) < two64(),
{
    assert(x >> 64u128 == x / 0x1_0000_0000_0000_0000u128) by (bit_vector);
    assert(x & 0xFFFF_FFFF_FFFF_FFFFu128 == x % 0x1_0000_0000_0000_0000u128) by (bit_vector);
    lemma_fundamental_div_mod(x as int, two64());
}

/// A left shift by 64 bits keeps the low 128 bits of the product with 2^64.
pub proof fn lemma_shl64(x: u128)
    ensures
        x << 64u128 == (x as int * two64()) % two128(),
        x < two64() ==> x << 64u128 == x as int * two64(),
{
    let lo = x & 0xFFFF_FFFF_FFFF_FFFFu128;
    assert(x << 64u128 == (x & 0xFFFF_FFFF_FFFF_FFFFu128) * 0x1_0000_0000_0000_0000u128) by (bit_vector);
    lemma_split_u128(x);
    let hi = x >> 64u128;
    assert(x as int * two64() == hi as int * two128() + lo as int * two64()) by (nonlinear_arith)
        requires x as int == hi as int * two64() + lo as int, two128() == two64() * two64();
    assert(lo as int * two64() < two128()) by (nonlinear_arith)
        requires lo < two64(), two128() == two64() * two64(), lo >= 0;
    lemma_fundamental_div_mod_converse(x as int * two64(), two128(), hi as int, lo as int * two64());
    if x < two64() {
        assert(lo == x);
    }
}

/// Floor division is monotone in the numerator and antitone in the denominator.
pub proof fn lemma_div_mono(a: int, b: int, d: int, e: int)
    requires
        0 <= a <= b,
        0 < e <= d,
    ensures
        a / d <= b / e,
        0 <= a / d,
{
    lemma_div_is_ordered(a, b, d);
    lemma_div_is_ordered_by_denominator(b, e, d);
    lemma_div_pos_is_pos(a, d);
}

/// Multiplication of non-negative numbers is monotone.
pub proof fn lemma_mul_mono(a: int, b: int, c: int, d: int)
    requires
        0 <= a <= b,
        0 <= c <= d,
    ensures
        a * c <= b * d,
        0 <= a * c,
{
    lemma_mul_inequality(a, b, c);
    lemma_mul_inequality(c, d, b);
    lemma_mul_is_commutative(b, c);
    lemma_mul_is_commutative(b, d);
    lemma_mul_nonnegative(a, c);
}

/// Divisibility does not depend on the sign of the dividend.
pub proof fn lemma_neg_mod_zero(x: int, d: int)
    requires
        d > 0,
    ensures
        ((-x) % d == 0) <==> (x % d == 0),
{
    lemma_fundamental_div_mod(x, d);
    lemma_fundamental_div_mod(-x, d);
    if x % d == 0 {
        assert(-x == (-(x / d)) * d + 0) by (nonlinear_arith)
            requires x == d * (x / d) + 0;
        lemma_fundamental_div_mod_converse(-x, d, -(x / d), 0);
    }
    if (-x) % d == 0 {
        assert(x == (-((-x) / d)) * d + 0) by (nonlinear_arith)
            requires -x == d * ((-x) / d) + 0;
        lemma_fundamental_div_mod_converse(x, d, -((-x) / d), 0);
    }
}

} // verus!
