//! Karatsuba multiply-accumulate at each width.

use crate::algebra::lemma_karatsuba_middle;
use crate::algebra::lemma_limb_product;
use crate::algebra::lemma_mul_bound;
use crate::words::pow_128;
use crate::words::pow_256;
use crate::words::u256_value;
use crate::words::wide_value;
use crate::words::U256;
use vstd::prelude::*;

verus! {

/// `x*y + z` at 64-bit width via Karatsuba decomposition: each operand splits
/// into two 32-bit halves, three half-width products replace the four of the
/// schoolbook, and the result is recomposed at weights 2^64 and 2^32.
///
/// The half sums `x0+x1` and `y0+y1` can each need 33 bits, so their product
/// and the middle term `z1` are kept in 128-bit precision throughout — the
/// subtraction of `z0` and `z2` loses nothing — and the recomposition adds
/// the weighted terms instead of or-ing possibly overlapping bit ranges.
pub fn karatsuba_multiply_add(x: u64, y: u64, z: u64) -> (r: u128)
    ensures
        r == x * y + z,
{
    let x0: u64 = x & 0xffff_ffff;
    let x1: u64 = x >> 32;
    let y0: u64 = y & 0xffff_ffff;
    let y1: u64 = y >> 32;
    proof {
        assert(x == x1 * 0x1_0000_0000 + x0 && x0 < 0x1_0000_0000 && x1 < 0x1_0000_0000)
            by (bit_vector)
            requires
                x0 == x & 0xffff_ffff,
                x1 == x >> 32,
        ;
        assert(y == y1 * 0x1_0000_0000 + y0 && y0 < 0x1_0000_0000 && y1 < 0x1_0000_0000)
            by (bit_vector)
            requires
                y0 == y & 0xffff_ffff,
                y1 == y >> 32,
        ;
        lemma_mul_bound(x0 as int, 0xffff_ffff, y0 as int, 0xffff_ffff);
        lemma_mul_bound(x1 as int, 0xffff_ffff, y1 as int, 0xffff_ffff);
        lemma_mul_bound(x0 as int, 0xffff_ffff, y1 as int, 0xffff_ffff);
        lemma_mul_bound(x1 as int, 0xffff_ffff, y0 as int, 0xffff_ffff);
    }
    let z0: u128 = (x0 as u128) * (y0 as u128);
    let z2: u128 = (x1 as u128) * (y1 as u128);
    // 33-bit half sums: kept in full, never truncated.
    let sx: u64 = x0 + x1;
    let sy: u64 = y0 + y1;
    proof {
        lemma_mul_bound(sx as int, 0x1_ffff_fffe, sy as int, 0x1_ffff_fffe);
        lemma_karatsuba_middle(x0 as int, x1 as int, y0 as int, y1 as int);
    }
    let m: u128 = (sx as u128) * (sy as u128);
    // The middle term, computed at full precision before the subtraction.
    let z1: u128 = m - z0 - z2;
    proof {
        lemma_limb_product(x0 as int, x1 as int, y0 as int, y1 as int, 0x1_0000_0000);
        lemma_mul_bound(x as int, 0xffff_ffff_ffff_ffff, y as int, 0xffff_ffff_ffff_ffff);
    }
    z2 * 0x1_0000_0000_0000_0000 + z1 * 0x1_0000_0000 + z0 + (z as u128)
}

/// `x*y + z` at 128-bit width via Karatsuba decomposition, returning the
/// exact 256-bit result as a `(low, high)` limb pair. The operands split into
/// 64-bit halves and three half-width multiplications — each delegated to the
/// 64-bit Karatsuba step — replace the four of the schoolbook.
///
/// The half sums can need 65 bits, so each is kept as a 64-bit residue plus a
/// carry, and the middle term `z1` — up to 129 bits — is held as a full limb
/// pair while `z0` and `z2` are subtracted with explicit borrows. Every carry
/// and borrow is captured by comparison and moved to the adjacent limb.
pub fn karatsuba_multiply_add_128(x: u128, y: u128, z: u128) -> (r: (u128, u128))
    ensures
        wide_value(r.0, r.1) == x * y + z,
{
    let x0: u128 = x & 0xffff_ffff_ffff_ffff;
    let x1: u128 = x >> 64;
    let y0: u128 = y & 0xffff_ffff_ffff_ffff;
    let y1: u128 = y >> 64;
    proof {
        assert(x == x1 * 0x1_0000_0000_0000_0000 + x0 && x0 < 0x1_0000_0000_0000_0000 && x1
            < 0x1_0000_0000_0000_0000) by (bit_vector)
            requires
                x0 == x & 0xffff_ffff_ffff_ffff,
                x1 == x >> 64,
        ;
        assert(y == y1 * 0x1_0000_0000_0000_0000 + y0 && y0 < 0x1_0000_0000_0000_0000 && y1
            < 0x1_0000_0000_0000_0000) by (bit_vector)
            requires
                y0 == y & 0xffff_ffff_ffff_ffff,
                y1 == y >> 64,
        ;
    }
    let z0: u128 = karatsuba_multiply_add(x0 as u64, y0 as u64, 0);
    let z2: u128 = karatsuba_multiply_add(x1 as u64, y1 as u64, 0);
    proof {
        assert(z0 == x0 * y0 && z2 == x1 * y1);
    }
    // 65-bit half sums, each held as a 64-bit residue plus a one-bit carry.
    let sx: u128 = x0 + x1;
    let sy: u128 = y0 + y1;
    let sxl: u128 = sx & 0xffff_ffff_ffff_ffff;
    let cx: u128 = sx >> 64;
    let syl: u128 = sy & 0xffff_ffff_ffff_ffff;
    let cy: u128 = sy >> 64;
    proof {
        assert(sx == cx * 0x1_0000_0000_0000_0000 + sxl && sxl < 0x1_0000_0000_0000_0000 && cx
            < 0x1_0000_0000_0000_0000) by (bit_vector)
            requires
                sxl == sx & 0xffff_ffff_ffff_ffff,
                cx == sx >> 64,
        ;
        assert(sy == cy * 0x1_0000_0000_0000_0000 + syl && syl < 0x1_0000_0000_0000_0000 && cy
            < 0x1_0000_0000_0000_0000) by (bit_vector)
            requires
                syl == sy & 0xffff_ffff_ffff_ffff,
                cy == sy >> 64,
        ;
        assert(cx <= 1 && cy <= 1);
        lemma_mul_bound(sxl as int, 0xffff_ffff_ffff_ffff, cy as int, 1);
        lemma_mul_bound(cx as int, 1, syl as int, 0xffff_ffff_ffff_ffff);
        lemma_mul_bound(cx as int, 1, cy as int, 1);
    }
    // The single extra multiplication of the two half sums, limb by limb: the
    // 64-bit product of the residues plus carry-selected addends at 2^64.
    let mll: u128 = karatsuba_multiply_add(sxl as u64, syl as u64, 0);
    let cross: u128 = sxl * cy + cx * syl;
    let cxy: u128 = cx * cy;
    let cross_lo: u128 = cross & 0xffff_ffff_ffff_ffff;
    let cross_hi: u128 = cross >> 64;
    proof {
        assert(cross == cross_hi * 0x1_0000_0000_0000_0000 + cross_lo && cross_lo
            < 0x1_0000_0000_0000_0000 && cross_hi < 0x1_0000_0000_0000_0000) by (bit_vector)
            requires
                cross_lo == cross & 0xffff_ffff_ffff_ffff,
                cross_hi == cross >> 64,
        ;
        assert(mll == sxl * syl);
    }
    let m_lo: u128 = mll.wrapping_add(cross_lo * 0x1_0000_0000_0000_0000);
    let c1: u128 = if m_lo < mll {
        1
    } else {
        0
    };
    let m_hi: u128 = cross_hi + cxy + c1;
    proof {
        lemma_limb_product(sxl as int, cx as int, syl as int, cy as int, 0x1_0000_0000_0000_0000);
        assert(sx * sy == m_hi * pow_128() + m_lo);
        // The middle term is nonnegative, so each borrow below has a limb to
        // borrow from.
        lemma_karatsuba_middle(x0 as int, x1 as int, y0 as int, y1 as int);
        lemma_mul_bound(x0 as int, 0xffff_ffff_ffff_ffff, y1 as int, 0xffff_ffff_ffff_ffff);
        lemma_mul_bound(x1 as int, 0xffff_ffff_ffff_ffff, y0 as int, 0xffff_ffff_ffff_ffff);
        assert(sx * sy - z0 - z2 == x0 * y1 + x1 * y0);
    }
    // z1 = m - z0 - z2, subtracted at full 256-bit precision with borrows.
    let b1: u128 = if m_lo < z0 {
        1
    } else {
        0
    };
    let t_lo: u128 = m_lo.wrapping_sub(z0);
    proof {
        assert(m_hi >= b1);
    }
    let t_hi: u128 = m_hi - b1;
    let b2: u128 = if t_lo < z2 {
        1
    } else {
        0
    };
    let z1_lo: u128 = t_lo.wrapping_sub(z2);
    proof {
        assert(t_hi * pow_128() + t_lo == sx * sy - z0);
        assert(t_hi >= b2);
    }
    let z1_hi: u128 = t_hi - b2;
    proof {
        assert(z1_hi * pow_128() + z1_lo == x0 * y1 + x1 * y0);
        assert(z1_hi <= 1);
    }
    // Recompose: z2 at 2^128, z1 at 2^64, z0 at 1, plus the accumulate term.
    let z1l_lo: u128 = z1_lo & 0xffff_ffff_ffff_ffff;
    let z1l_hi: u128 = z1_lo >> 64;
    proof {
        assert(z1_lo == z1l_hi * 0x1_0000_0000_0000_0000 + z1l_lo && z1l_lo
            < 0x1_0000_0000_0000_0000 && z1l_hi < 0x1_0000_0000_0000_0000) by (bit_vector)
            requires
                z1l_lo == z1_lo & 0xffff_ffff_ffff_ffff,
                z1l_hi == z1_lo >> 64,
        ;
    }
    let low1: u128 = z0.wrapping_add(z1l_lo * 0x1_0000_0000_0000_0000);
    let cl1: u128 = if low1 < z0 {
        1
    } else {
        0
    };
    let low: u128 = low1.wrapping_add(z);
    let cl2: u128 = if low < z {
        1
    } else {
        0
    };
    proof {
        lemma_limb_product(x0 as int, x1 as int, y0 as int, y1 as int, 0x1_0000_0000_0000_0000);
        lemma_mul_bound(
            x as int,
            0xffff_ffff_ffff_ffff_ffff_ffff_ffff_ffff,
            y as int,
            0xffff_ffff_ffff_ffff_ffff_ffff_ffff_ffff,
        );
        assert(low + (z2 + z1l_hi + z1_hi * 0x1_0000_0000_0000_0000 + cl1 + cl2) * pow_128() == x
            * y + z);
        assert(z2 + z1l_hi + z1_hi * 0x1_0000_0000_0000_0000 + cl1 + cl2 < pow_128());
    }
    let high: u128 = z2 + z1l_hi + z1_hi * 0x1_0000_0000_0000_0000 + cl1 + cl2;
    (low, high)
}

/// `x*y + z` at 256-bit width via Karatsuba decomposition, wrapping modulo
/// 2^256 like the schoolbook variant at this width. The operands split into
/// 128-bit limbs and three half-width multiplications, each delegated to the
/// 128-bit Karatsuba step, replace the four of the schoolbook.
///
/// Only residues modulo 2^128 of the half sums and of the middle term are
/// needed: whatever the wrapping half-sum additions and the borrow-free
/// subtractions discard lies at weight 2^256 or above once shifted into
/// place, and the wrap discards it anyway.
pub fn karatsuba_multiply_add_256(x: U256, y: U256, z: U256) -> (r: U256)
    ensures
        u256_value(r) == (u256_value(x) * u256_value(y) + u256_value(z)) % pow_256(),
{
    let p0 = karatsuba_multiply_add_128(x.0, y.0, 0);
    let p2 = karatsuba_multiply_add_128(x.1, y.1, 0);
    let sx: u128 = x.0.wrapping_add(x.1);
    let sy: u128 = y.0.wrapping_add(y.1);
    let m = karatsuba_multiply_add_128(sx, sy, 0);
    // Middle term modulo 2^128: the half-sum product minus the outer products.
    let t1: u128 = m.0.wrapping_sub(p0.0);
    let z1_lo: u128 = t1.wrapping_sub(p2.0);
    // Combine: z0 plus the accumulate limb below, z1, the high half of z0 and
    // the high accumulate limb above, with the low limb's carry moved across.
    let low: u128 = p0.0.wrapping_add(z.0);
    let cl: u128 = if low < z.0 {
        1
    } else {
        0
    };
    let h1: u128 = p0.1.wrapping_add(z1_lo);
    let h2: u128 = h1.wrapping_add(z.1);
    let high: u128 = h2.wrapping_add(cl);
    proof {
        let kx: int = if x.0 + x.1 > u128::MAX {
            1int
        } else {
            0int
        };
        let ky: int = if y.0 + y.1 > u128::MAX {
            1int
        } else {
            0int
        };
        let u1: int = if m.0 < p0.0 {
            1int
        } else {
            0int
        };
        let u2: int = if t1 < p2.0 {
            1int
        } else {
            0int
        };
        let v1: int = if p0.1 + z1_lo > u128::MAX {
            1int
        } else {
            0int
        };
        let v2: int = if h1 + z.1 > u128::MAX {
            1int
        } else {
            0int
        };
        let v3: int = if h2 + cl > u128::MAX {
            1int
        } else {
            0int
        };
        // The true half sums, seen as a carry limb over the wrapped residue.
        lemma_limb_product(sx as int, kx, sy as int, ky, 0x1_0000_0000_0000_0000_0000_0000_0000_0000int);
        lemma_karatsuba_middle(x.0 as int, x.1 as int, y.0 as int, y.1 as int);
        lemma_limb_product(
            x.0 as int,
            x.1 as int,
            y.0 as int,
            y.1 as int,
            0x1_0000_0000_0000_0000_0000_0000_0000_0000int,
        );
        let ww: int = p0.1 + p2.1 + u1 + u2 - kx * ky * 0x1_0000_0000_0000_0000_0000_0000_0000_0000int
            - sx * ky - kx * sy - m.1;
        assert(z1_lo == x.0 * y.1 + x.1 * y.0 + ww * pow_128());
        let vv: int = u256_value(x) * u256_value(y) + u256_value(z);
        let rv: int = low + high * pow_128();
        let kk: int = x.1 * y.1 - ww + v1 + v2 + v3;
        assert(pow_256() == 0x1_0000_0000_0000_0000_0000_0000_0000_0000int
            * 0x1_0000_0000_0000_0000_0000_0000_0000_0000int);
        assert(vv == pow_256() * kk + rv);
        assert(0 <= rv < pow_256());
        vstd::arithmetic::div_mod::lemma_mod_multiples_vanish(kk, rv, pow_256());
        vstd::arithmetic::div_mod::lemma_small_mod(rv as nat, pow_256() as nat);
    }
    U256(low, high)
}

} // verus!
