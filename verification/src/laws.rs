//! Laws relating the algorithms: the multiply-accumulate contract pins the
//! result at every width, so any two functions meeting it — the schoolbook
//! and the Karatsuba variant, or two calls of the same one — return the same
//! value on the same inputs.

use crate::algebra::lemma_wide_value_injective;
use crate::words::pow_256;
use crate::words::u256_value;
use crate::words::wide_value;
use crate::words::U256;
use vstd::prelude::*;

verus! {

/// At 64-bit width, any two results that meet the multiply-accumulate
/// contract for the same inputs are equal: the schoolbook and Karatsuba
/// variants agree bit for bit, and repeated invocation with identical inputs
/// yields identical output.
pub proof fn lemma_multiply_add_64_determined(a: u64, b: u64, c: u64, r1: u128, r2: u128)
    requires
        r1 == a * b + c,
        r2 == a * b + c,
    ensures
        r1 == r2,
{
}

/// At 128-bit width, any two limb-pair results that meet the
/// multiply-accumulate contract for the same inputs are equal, limb for limb.
/// In particular the Karatsuba variant — built from three 64-bit Karatsuba
/// calls — returns exactly what the schoolbook variant returns, and what any
/// other correct decomposition would.
pub proof fn lemma_multiply_add_128_determined(
    a: u128,
    b: u128,
    c: u128,
    r1: (u128, u128),
    r2: (u128, u128),
)
    requires
        wide_value(r1.0, r1.1) == a * b + c,
        wide_value(r2.0, r2.1) == a * b + c,
    ensures
        r1 == r2,
{
    lemma_wide_value_injective(r1.0, r1.1, r2.0, r2.1);
}

/// At 256-bit width, any two results that meet the wrapping
/// multiply-accumulate contract for the same inputs are equal, limb for limb.
pub proof fn lemma_multiply_add_256_determined(a: U256, b: U256, c: U256, r1: U256, r2: U256)
    requires
        u256_value(r1) == (u256_value(a) * u256_value(b) + u256_value(c)) % pow_256(),
        u256_value(r2) == (u256_value(a) * u256_value(b) + u256_value(c)) % pow_256(),
    ensures
        r1 == r2,
{
    lemma_wide_value_injective(r1.0, r1.1, r2.0, r2.1);
}

} // verus!
