//! Algebraic facts about limb decomposition, shared by both algorithms.

use crate::words::pow_128;
use crate::words::wide_value;
use vstd::prelude::*;

verus! {

/// Splitting each factor into half-width limbs at weight `h` turns the full
/// product into three weighted partial products. Both the schoolbook and the
/// Karatsuba recompositions rest on this identity.
pub proof fn lemma_limb_product(x0: int, x1: int, y0: int, y1: int, h: int)
    ensures
        (x1 * h + x0) * (y1 * h + y0) == (x1 * y1) * (h * h) + (x0 * y1 + x1 * y0) * h + x0
            * y0,
{
    broadcast use vstd::arithmetic::mul::group_mul_properties;

    assert((x1 * h + x0) * (y1 * h + y0) == (x1 * h) * (y1 * h) + x0 * (y1 * h) + (x1 * h) * y0
        + x0 * y0);
    assert((x1 * h) * (y1 * h) == (x1 * y1) * (h * h)) by (nonlinear_arith);
    assert(x0 * (y1 * h) == (x0 * y1) * h) by (nonlinear_arith);
    assert((x1 * h) * y0 == (x1 * y0) * h) by (nonlinear_arith);
    assert((x0 * y1) * h + (x1 * y0) * h == (x0 * y1 + x1 * y0) * h);
}

/// The Karatsuba identity: one multiplication of the two half sums yields the
/// middle partial product once the outer products are subtracted, saving the
/// fourth half-width multiplication.
pub proof fn lemma_karatsuba_middle(x0: int, x1: int, y0: int, y1: int)
    by (nonlinear_arith)
    ensures
        (x0 + x1) * (y0 + y1) - x0 * y0 - x1 * y1 == x0 * y1 + x1 * y0,
{
}

/// A product of two values below given nonnegative bounds is nonnegative and
/// stays below the product of the bounds.
pub proof fn lemma_mul_bound(x: int, xb: int, y: int, yb: int)
    by (nonlinear_arith)
    requires
        0 <= x <= xb,
        0 <= y <= yb,
    ensures
        0 <= x * y <= xb * yb,
{
}

/// A number below 2^256 has exactly one representation as a pair of 128-bit
/// limbs: two pairs standing for the same number are the same pair.
pub proof fn lemma_wide_value_injective(l1: u128, h1: u128, l2: u128, h2: u128)
    requires
        wide_value(l1, h1) == wide_value(l2, h2),
    ensures
        l1 == l2,
        h1 == h2,
{
    assert(l1 + h1 * pow_128() == l2 + h2 * pow_128());
}

} // verus!
