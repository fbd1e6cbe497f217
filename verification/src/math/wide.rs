//! Full-width (256-bit) multiply-then-divide on 128-bit words.
use vstd::prelude::*;
use vstd::arithmetic::div_mod::*;
use vstd::arithmetic::power2::*;
use vstd::bits::lemma_u128_shr_is_div;
use crate::math::constants::{two64, two128};
use crate::math::lemmas::lemma_split_u128;
use crate::math::q64::clip_u128;

verus! {

/// `2^128` as a power of two.
proof fn lemma_pow2_128()
    ensures
        pow2(128) == two128(),
        pow2(64) == two64(),
{
    lemma2_to64_rest();
    lemma_pow2_adds(64, 64);
}

/// The exact product of two 128-bit words as `(high, low)` halves of a 256-bit word.
pub fn mul_wide(a: u128, b: u128) -> (r: (u128, u128))
    ensures
        r.0 as int * two128() + r.1 as int == a as int * b as int,
{
    let a1 = a >> 64;
    let a0 = a & 0xFFFF_FFFF_FFFF_FFFF;
    let b1 = b >> 64;
    let b0 = b & 0xFFFF_FFFF_FFFF_FFFF;
    proof {
        lemma_split_u128(a);
        lemma_split_u128(b);
        assert(a1 as int * b1 as int <= u128::MAX) by (nonlinear_arith)
            requires a1 < two64(), b1 < two64(), a1 >= 0, b1 >= 0;
        assert(a1 as int * b0 as int <= u128::MAX) by (nonlinear_arith)
            requires a1 < two64(), b0 < two64(), a1 >= 0, b0 >= 0;
        assert(a0 as int * b1 as int <= u128::MAX) by (nonlinear_arith)
            requires a0 < two64(), b1 < two64(), a0 >= 0, b1 >= 0;
        assert(a0 as int * b0 as int <= u128::MAX) by (nonlinear_arith)
            requires a0 < two64(), b0 < two64(), a0 >= 0, b0 >= 0;
    }
    let p00 = a0 * b0;
    let p01 = a0 * b1;
    let p10 = a1 * b0;
    let p11 = a1 * b1;
    proof {
        lemma_split_u128(p00);
        lemma_split_u128(p01);
        lemma_split_u128(p10);
    }
    let mid = (p00 >> 64) + (p01 & 0xFFFF_FFFF_FFFF_FFFF) + (p10 & 0xFFFF_FFFF_FFFF_FFFF);
    proof {
        lemma_split_u128(mid);
        let ml = mid & 0xFFFF_FFFF_FFFF_FFFFu128;
        assert(ml << 64u128 == ml * 0x1_0000_0000_0000_0000u128) by (bit_vector)
            requires ml < 0x1_0000_0000_0000_0000u128;
        assert(ml as int * two64() + (p00 & 0xFFFF_FFFF_FFFF_FFFFu128) as int <= u128::MAX) by (nonlinear_arith)
            requires ml < two64(), (p00 & 0xFFFF_FFFF_FFFF_FFFFu128) < two64(), ml >= 0;
    }
    let lo = (p00 & 0xFFFF_FFFF_FFFF_FFFF) + ((mid & 0xFFFF_FFFF_FFFF_FFFF) << 64);
    proof {
        let s = two64();
        let (ai, bi, ah, al, bh, bl) = (a as int, b as int, a1 as int, a0 as int, b1 as int, b0 as int);
        let (h00, l00) = ((p00 >> 64u128) as int, (p00 & 0xFFFF_FFFF_FFFF_FFFFu128) as int);
        let (h01, l01) = ((p01 >> 64u128) as int, (p01 & 0xFFFF_FFFF_FFFF_FFFFu128) as int);
        let (h10, l10) = ((p10 >> 64u128) as int, (p10 & 0xFFFF_FFFF_FFFF_FFFFu128) as int);
        let (mh, ml) = ((mid >> 64u128) as int, (mid & 0xFFFF_FFFF_FFFF_FFFFu128) as int);
        assert(ai * bi == ah * s * bi + al * bi) by (nonlinear_arith)
            requires ai == ah * s + al;
        assert(ah * s * bi == (ah * bh) * (s * s) + (ah * bl) * s) by (nonlinear_arith)
            requires bi == bh * s + bl;
        assert(al * bi == (al * bh) * s + al * bl) by (nonlinear_arith)
            requires bi == bh * s + bl;
        assert(two128() == s * s);
        let hi_sum = p11 as int + h01 + h10 + mh;
        assert(ai * bi == hi_sum * two128() + (ml * s + l00)) by (nonlinear_arith)
            requires
                ai * bi == p11 as int * (s * s) + p10 as int * s + p01 as int * s + p00 as int,
                p00 as int == h00 * s + l00,
                p01 as int == h01 * s + l01,
                p10 as int == h10 * s + l10,
                mid as int == h00 + l01 + l10,
                mid as int == mh * s + ml,
                hi_sum == p11 as int + h01 + h10 + mh,
                two128() == s * s;
        assert(ai * bi < two128() * two128()) by (nonlinear_arith)
            requires 0 <= ai < two128(), 0 <= bi < two128();
        assert(hi_sum < two128()) by (nonlinear_arith)
            requires ai * bi == hi_sum * two128() + (ml * s + l00), ai * bi < two128() * two128(),
                ml >= 0, l00 >= 0, s > 0, two128() > 0;
    }
    let hi = p11 + (p01 >> 64) + (p10 >> 64) + (mid >> 64);
    (hi, lo)
}

/// One step of binary long division on the next bit of the dividend.
fn div_step(rem: u128, bit: u128, d: u128) -> (r: (u128, u128))
    requires
        rem < d,
        bit < 2,
    ensures
        r.1 < 2,
        r.0 < d,
        2 * rem + bit == r.1 * d + r.0,
{
    if rem >= d - rem {
        (rem - (d - rem) + bit, 1)
    } else {
        let r2 = rem + rem + bit;
        if r2 >= d { (r2 - d, 1) } else { (r2, 0) }
    }
}

/// `floor((hi * 2^128 + lo) / d)`, saturating at `u128::MAX`.
pub fn div_wide(hi: u128, lo: u128, d: u128) -> (r: u128)
    requires
        d > 0,
    ensures
        r == clip_u128((hi as int * two128() + lo as int) / d as int),
{
    let ghost n = hi as int * two128() + lo as int;
    proof { lemma_pow2_128(); }
    if hi >= d {
        proof {
            assert(n >= d as int * two128()) by (nonlinear_arith)
                requires n == hi as int * two128() + lo as int, hi >= d, lo >= 0, two128() > 0;
            lemma_div_by_multiple(two128(), d as int);
            lemma_div_is_ordered(d as int * two128(), n, d as int);
            assert(d as int * two128() == two128() * d as int) by (nonlinear_arith);
        }
        return u128::MAX;
    }
    let mut rem: u128 = hi;
    let mut q: u128 = 0;
    let mut i: u32 = 0;
    proof {
        lemma_pow2_pos(128);
        lemma_div_is_ordered(lo as int, pow2(128) as int - 1, pow2(128) as int);
        lemma_div_by_multiple(1, pow2(128) as int);
        assert((pow2(128) as int - 1) / (pow2(128) as int) == 0) by {
            lemma_basic_div(pow2(128) as int - 1, pow2(128) as int);
        }
        assert(pow2(0) == 1) by { lemma2_to64(); }
    }
    while i < 128
        invariant
            0 <= i <= 128,
            rem < d,
            hi < d,
            q < pow2(i as nat),
            hi as int * pow2(i as nat) + lo as int / pow2((128 - i) as nat) as int == q as int * d
                + rem as int,
            pow2(128) == two128(),
            n == hi as int * two128() + lo as int,
        decreases 128 - i,
    {
        let k = (127 - i) as u128;
        let x = lo >> k;
        let bit = x & 1;
        proof {
            lemma_u128_shr_is_div(lo, k);
            assert(x & 1u128 == x % 2u128) by (bit_vector);
            lemma_pow2_unfold((128 - i) as nat);
            lemma_pow2_pos(k as nat);
            lemma_div_denominator(lo as int, pow2(k as nat) as int, 2);
            lemma_fundamental_div_mod(x as int, 2);
            lemma_pow2_unfold((i + 1) as nat);
        }
        let (nr, qb) = div_step(rem, bit, d);
        proof {
            let p = pow2(i as nat) as int;
            let xi = x as int;
            assert(hi as int * pow2((i + 1) as nat) + xi == 2 * (hi as int * p + xi / 2) + xi % 2)
                by (nonlinear_arith)
                requires pow2((i + 1) as nat) == 2 * p, xi == 2 * (xi / 2) + xi % 2;
            assert(hi as int * pow2((i + 1) as nat) + xi == (2 * q as int + qb as int) * d as int
                + nr as int) by (nonlinear_arith)
                requires
                    hi as int * pow2((i + 1) as nat) + xi == 2 * (hi as int * p + xi / 2) + xi % 2,
                    hi as int * p + xi / 2 == q as int * d as int + rem as int,
                    xi % 2 == bit as int,
                    2 * rem as int + bit as int == qb as int * d as int + nr as int;
        }
        proof {
            if i < 127 {
                lemma_pow2_strictly_increases(i as nat, 127);
            }
            lemma_pow2_unfold(128);
            assert(2 * (q as int) + (qb as int) < pow2((i + 1) as nat));
        }
        q = q * 2 + qb;
        rem = nr;
        i = i + 1;
        proof {
            assert(lo as int / pow2((128 - i) as nat) as int == x as int);
        }
    }
    proof {
        assert(lo as int / pow2(0) as int == lo as int) by { lemma2_to64(); }
        lemma_fundamental_div_mod_converse(n, d as int, q as int, rem as int);
    }
    q
}

} // verus!
