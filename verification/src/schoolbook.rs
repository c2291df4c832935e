//! Direct ("schoolbook") multiply-accumulate at each width.

use crate::algebra::lemma_limb_product;
use crate::algebra::lemma_mul_bound;
use crate::words::pow_128;
use crate::words::pow_256;
use crate::words::u256_value;
use crate::words::wide_value;
use crate::words::U256;
use vstd::prelude::*;

verus! {

/// `a*b + c` at 64-bit width by direct double-width multiplication: both
/// operands widen to 128 bits before the multiply, then `c` is added, also
/// widened. The result is exact — a 64x64 product plus a 64-bit addend
/// always fits in 128 bits.
pub fn compiler_optimized_multiply_add(a: u64, b: u64, c: u64) -> (r: u128)
    ensures
        r == a * b + c,
{
    proof {
        assert(a * b <= 0xffff_ffff_ffff_ffff * 0xffff_ffff_ffff_ffff) by (nonlinear_arith)
            requires
                a <= 0xffff_ffff_ffff_ffff,
                b <= 0xffff_ffff_ffff_ffff,
        ;
    }
    (a as u128) * (b as u128) + (c as u128)
}

/// `a*b + c` at 128-bit width, returning the exact 256-bit result as a
/// `(low, high)` limb pair. The operands decompose into 64-bit limbs and all
/// four cross products are formed; every carry out of a wrapping addition is
/// captured by comparison (`result < operand` means a carry occurred) and
/// added into the next-higher limb, so nothing is lost.
pub fn compiler_optimized_multiply_add_128(a: u128, b: u128, c: u128) -> (r: (u128, u128))
    ensures
        wide_value(r.0, r.1) == a * b + c,
{
    let a0: u128 = a & 0xffff_ffff_ffff_ffff;
    let a1: u128 = a >> 64;
    let b0: u128 = b & 0xffff_ffff_ffff_ffff;
    let b1: u128 = b >> 64;
    proof {
        assert(a == a1 * 0x1_0000_0000_0000_0000 + a0 && a0 < 0x1_0000_0000_0000_0000 && a1
            < 0x1_0000_0000_0000_0000) by (bit_vector)
            requires
                a0 == a & 0xffff_ffff_ffff_ffff,
                a1 == a >> 64,
        ;
        assert(b == b1 * 0x1_0000_0000_0000_0000 + b0 && b0 < 0x1_0000_0000_0000_0000 && b1
            < 0x1_0000_0000_0000_0000) by (bit_vector)
            requires
                b0 == b & 0xffff_ffff_ffff_ffff,
                b1 == b >> 64,
        ;
        lemma_mul_bound(a0 as int, 0xffff_ffff_ffff_ffff, b0 as int, 0xffff_ffff_ffff_ffff);
        lemma_mul_bound(a0 as int, 0xffff_ffff_ffff_ffff, b1 as int, 0xffff_ffff_ffff_ffff);
        lemma_mul_bound(a1 as int, 0xffff_ffff_ffff_ffff, b0 as int, 0xffff_ffff_ffff_ffff);
        lemma_mul_bound(a1 as int, 0xffff_ffff_ffff_ffff, b1 as int, 0xffff_ffff_ffff_ffff);
    }
    let p00: u128 = a0 * b0;
    let p01: u128 = a0 * b1;
    let p10: u128 = a1 * b0;
    let p11: u128 = a1 * b1;
    // Sum of the two middle products, with its carry-out.
    let mid: u128 = p01.wrapping_add(p10);
    let cm: u128 = if mid < p01 {
        1
    } else {
        0
    };
    let mid_lo: u128 = mid & 0xffff_ffff_ffff_ffff;
    let mid_hi: u128 = mid >> 64;
    proof {
        assert(mid == mid_hi * 0x1_0000_0000_0000_0000 + mid_lo && mid_lo
            < 0x1_0000_0000_0000_0000 && mid_hi < 0x1_0000_0000_0000_0000) by (bit_vector)
            requires
                mid_lo == mid & 0xffff_ffff_ffff_ffff,
                mid_hi == mid >> 64,
        ;
        assert(mid + cm * pow_128() == p01 + p10);
    }
    // Low 128 bits of the product, with the carry into the high limb.
    let low_p: u128 = p00.wrapping_add(mid_lo * 0x1_0000_0000_0000_0000);
    let cl: u128 = if low_p < p00 {
        1
    } else {
        0
    };
    proof {
        lemma_limb_product(a0 as int, a1 as int, b0 as int, b1 as int, 0x1_0000_0000_0000_0000);
        assert(a * b == p11 * pow_128() + (p01 + p10) * 0x1_0000_0000_0000_0000 + p00);
        lemma_mul_bound(
            a as int,
            0xffff_ffff_ffff_ffff_ffff_ffff_ffff_ffff,
            b as int,
            0xffff_ffff_ffff_ffff_ffff_ffff_ffff_ffff,
        );
        assert(low_p + (p11 + mid_hi + cm * 0x1_0000_0000_0000_0000 + cl) * pow_128() == a * b);
        assert(p11 + mid_hi + cm * 0x1_0000_0000_0000_0000 + cl
            < 0xffff_ffff_ffff_ffff_ffff_ffff_ffff_ffffu128);
    }
    // High 128 bits of the product: top cross product plus every carry.
    let high_p: u128 = p11 + mid_hi + cm * 0x1_0000_0000_0000_0000 + cl;
    // Fold in the accumulate term, propagating its carry into the high limb.
    let low: u128 = low_p.wrapping_add(c);
    let cc: u128 = if low < c {
        1
    } else {
        0
    };
    proof {
        assert(low + (high_p + cc) * pow_128() == a * b + c);
        assert(high_p + cc < pow_128());
    }
    let high: u128 = high_p + cc;
    (low, high)
}

/// `a*b + c` at 256-bit width, the terminal width: the result wraps modulo
/// 2^256 like a fixed-width register. The operands decompose into 128-bit
/// limbs and the cross products combine as at the lower widths, except that
/// everything at weight 2^256 and above is discarded by the wrap — the whole
/// of `a1*b1` and the high halves of the two middle cross products.
pub fn compiler_optimized_multiply_add_256(a: U256, b: U256, c: U256) -> (r: U256)
    ensures
        u256_value(r) == (u256_value(a) * u256_value(b) + u256_value(c)) % pow_256(),
{
    // Low cross product with the low accumulate limb folded in, kept exact:
    // its high half carries into the high limb of the result.
    let s = compiler_optimized_multiply_add_128(a.0, b.0, c.0);
    let p01 = compiler_optimized_multiply_add_128(a.0, b.1, 0);
    let p10 = compiler_optimized_multiply_add_128(a.1, b.0, 0);
    let h1: u128 = s.1.wrapping_add(p01.0);
    let h2: u128 = h1.wrapping_add(p10.0);
    let high: u128 = h2.wrapping_add(c.1);
    proof {
        let w1: int = if s.1 + p01.0 > u128::MAX {
            1int
        } else {
            0int
        };
        let w2: int = if h1 + p10.0 > u128::MAX {
            1int
        } else {
            0int
        };
        let w3: int = if h2 + c.1 > u128::MAX {
            1int
        } else {
            0int
        };
        assert(high == s.1 + p01.0 + p10.0 + c.1 - (w1 + w2 + w3) * pow_128());
        lemma_limb_product(
            a.0 as int,
            a.1 as int,
            b.0 as int,
            b.1 as int,
            0x1_0000_0000_0000_0000_0000_0000_0000_0000int,
        );
        let vv: int = u256_value(a) * u256_value(b) + u256_value(c);
        let rv: int = s.0 + high * pow_128();
        let kk: int = a.1 * b.1 + p01.1 + p10.1 + w1 + w2 + w3;
        assert(pow_256() == 0x1_0000_0000_0000_0000_0000_0000_0000_0000int
            * 0x1_0000_0000_0000_0000_0000_0000_0000_0000int);
        assert(vv == pow_256() * kk + rv);
        assert(0 <= rv < pow_256());
        vstd::arithmetic::div_mod::lemma_mod_multiples_vanish(kk, rv, pow_256());
        vstd::arithmetic::div_mod::lemma_small_mod(rv as nat, pow_256() as nat);
    }
    U256(s.0, high)
}

} // verus!
