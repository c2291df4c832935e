//! Limb representation of wide words, and the numbers they stand for.

use vstd::prelude::*;

verus! {

/// An unsigned 256-bit value as an ordered pair of 128-bit limbs
/// `(low, high)`, standing for `low + high * 2^128`.
#[derive(Clone, Copy, Debug, PartialEq, Eq, Structural)]
pub struct U256(pub u128, pub u128);

/// 2^128, the weight of the upper limb of a 256-bit value.
pub open spec fn pow_128() -> int {
    0x1_0000_0000_0000_0000_0000_0000_0000_0000int
}

/// 2^256, the modulus of the truncated 256-bit result.
pub open spec fn pow_256() -> int {
    pow_128() * pow_128()
}

/// The number that a pair of 128-bit limbs `(low, high)` stands for.
pub open spec fn wide_value(low: u128, high: u128) -> int {
    low + high * pow_128()
}

/// The number that a `U256` stands for.
pub open spec fn u256_value(x: U256) -> int {
    wide_value(x.0, x.1)
}

} // verus!
