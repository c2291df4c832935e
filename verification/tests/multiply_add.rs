//! Tests of the multiply-accumulate operations at every width, against an
//! independent arbitrary-precision reference and against each other.

use muladd::karatsuba::karatsuba_multiply_add;
use muladd::karatsuba::karatsuba_multiply_add_128;
use muladd::karatsuba::karatsuba_multiply_add_256;
use muladd::schoolbook::compiler_optimized_multiply_add;
use muladd::schoolbook::compiler_optimized_multiply_add_128;
use muladd::schoolbook::compiler_optimized_multiply_add_256;
use muladd::words::U256;
use num_bigint::BigUint;

/// Independent reference for `a*b + c` at 128-bit width: the exact 256-bit
/// value as `(low, high)` limbs, computed with arbitrary precision.
fn reference_128(a: u128, b: u128, c: u128) -> (u128, u128) {
    let r = BigUint::from(a) * BigUint::from(b) + BigUint::from(c);
    let mask = (BigUint::from(1u8) << 128) - BigUint::from(1u8);
    let low = u128::try_from(&r & &mask).unwrap();
    let high = u128::try_from(r >> 128).unwrap();
    (low, high)
}

/// Independent reference for `a*b + c` at 256-bit width, truncated mod 2^256.
fn reference_256(a: U256, b: U256, c: U256) -> U256 {
    let big = |v: U256| BigUint::from(v.0) + (BigUint::from(v.1) << 128);
    let mask = (BigUint::from(1u8) << 128) - BigUint::from(1u8);
    let r = big(a) * big(b) + big(c);
    let low = u128::try_from(&r & &mask).unwrap();
    let high = u128::try_from((r >> 128) & mask).unwrap();
    U256(low, high)
}

fn samples_64() -> Vec<u64> {
    vec![
        0,
        1,
        2,
        0xffff_ffff,
        0x1_0000_0000,
        0x1234_5678_9abc_def0,
        0x0fed_cba9_8765_4321,
        0x8000_0000_0000_0000,
        u64::MAX - 1,
        u64::MAX,
    ]
}

fn samples_128() -> Vec<u128> {
    vec![
        0,
        1,
        0xffff_ffff_ffff_ffff,
        0x1_0000_0000_0000_0000,
        0x1234_5678_9abc_def0_0fed_cba9_8765_4321,
        0xffff_ffff_0000_0001_8000_0000_0000_0000,
        u128::MAX - 1,
        u128::MAX,
    ]
}

fn samples_256() -> Vec<U256> {
    vec![
        U256(0, 0),
        U256(1, 0),
        U256(0, 1),
        U256(u128::MAX, 0),
        U256(0, u128::MAX),
        U256(0x1234_5678_9abc_def0_0fed_cba9_8765_4321, 0x1111_1111_1111_1111_2222_2222_2222_2222),
        U256(u128::MAX, u128::MAX),
    ]
}

/// The 64-bit concrete scenario: both algorithms must return the exact
/// full-precision 128-bit value.
#[test]
fn concrete_scenario_64() {
    let a: u64 = 0x123456789abcdef0;
    let b: u64 = 0x0fedcba987654321;
    let c: u64 = 0x1111111111111111;
    let expected: u128 = (a as u128) * (b as u128) + (c as u128);
    assert_eq!(expected, 0x0121fa00ad77d7423347e9a0f6729e01);
    assert_eq!(compiler_optimized_multiply_add(a, b, c), expected);
    assert_eq!(karatsuba_multiply_add(a, b, c), expected);
}

/// Schoolbook and Karatsuba agree bit for bit at 64-bit width, and both match
/// the native full-precision computation.
#[test]
fn cross_algorithm_64() {
    for &a in &samples_64() {
        for &b in &samples_64() {
            for &c in &samples_64() {
                let expected = (a as u128) * (b as u128) + (c as u128);
                assert_eq!(compiler_optimized_multiply_add(a, b, c), expected);
                assert_eq!(karatsuba_multiply_add(a, b, c), expected);
            }
        }
    }
}

/// Schoolbook and Karatsuba agree bit for bit at 128-bit width, and both match
/// the arbitrary-precision reference.
#[test]
fn cross_algorithm_128() {
    for &a in &samples_128() {
        for &b in &samples_128() {
            for &c in &samples_128() {
                let expected = reference_128(a, b, c);
                assert_eq!(compiler_optimized_multiply_add_128(a, b, c), expected);
                assert_eq!(karatsuba_multiply_add_128(a, b, c), expected);
            }
        }
    }
}

/// Schoolbook and Karatsuba agree bit for bit at 256-bit width, and both match
/// the arbitrary-precision reference truncated mod 2^256.
#[test]
fn cross_algorithm_256() {
    for &a in &samples_256() {
        for &b in &samples_256() {
            for &c in &samples_256() {
                let expected = reference_256(a, b, c);
                assert_eq!(compiler_optimized_multiply_add_256(a, b, c), expected);
                assert_eq!(karatsuba_multiply_add_256(a, b, c), expected);
            }
        }
    }
}

/// All-zero operands give zero at every width.
#[test]
fn boundary_zero() {
    assert_eq!(compiler_optimized_multiply_add(0, 0, 0), 0);
    assert_eq!(karatsuba_multiply_add(0, 0, 0), 0);
    assert_eq!(compiler_optimized_multiply_add_128(0, 0, 0), (0, 0));
    assert_eq!(karatsuba_multiply_add_128(0, 0, 0), (0, 0));
    assert_eq!(compiler_optimized_multiply_add_256(U256(0, 0), U256(0, 0), U256(0, 0)), U256(0, 0));
    assert_eq!(karatsuba_multiply_add_256(U256(0, 0), U256(0, 0), U256(0, 0)), U256(0, 0));
}

/// All-ones operands match the modular-arithmetic reference at every width.
#[test]
fn boundary_all_ones() {
    let m64 = u64::MAX;
    let expected_64 = (m64 as u128) * (m64 as u128) + (m64 as u128);
    assert_eq!(expected_64, 0xffffffffffffffff0000000000000000);
    assert_eq!(compiler_optimized_multiply_add(m64, m64, m64), expected_64);
    assert_eq!(karatsuba_multiply_add(m64, m64, m64), expected_64);

    let m128 = u128::MAX;
    let expected_128 = reference_128(m128, m128, m128);
    assert_eq!(compiler_optimized_multiply_add_128(m128, m128, m128), expected_128);
    assert_eq!(karatsuba_multiply_add_128(m128, m128, m128), expected_128);

    let m256 = U256(u128::MAX, u128::MAX);
    let expected_256 = reference_256(m256, m256, m256);
    // (2^256 - 1)^2 + (2^256 - 1) = (2^256 - 1) * 2^256, which is 0 mod 2^256.
    assert_eq!(expected_256, U256(0, 0));
    assert_eq!(compiler_optimized_multiply_add_256(m256, m256, m256), expected_256);
    assert_eq!(karatsuba_multiply_add_256(m256, m256, m256), expected_256);
}

/// Repeated invocation with identical inputs yields identical output.
#[test]
fn determinism_repeated_calls() {
    let (a, b, c) = (0x123456789abcdef0u64, 0x0fedcba987654321u64, 0x1111111111111111u64);
    assert_eq!(karatsuba_multiply_add(a, b, c), karatsuba_multiply_add(a, b, c));
    assert_eq!(compiler_optimized_multiply_add(a, b, c), compiler_optimized_multiply_add(a, b, c));
    let (a, b, c) = (u128::MAX, u128::MAX - 7, 0x42u128);
    assert_eq!(karatsuba_multiply_add_128(a, b, c), karatsuba_multiply_add_128(a, b, c));
    let (a, b, c) = (U256(u128::MAX, 3), U256(7, u128::MAX), U256(9, 9));
    assert_eq!(karatsuba_multiply_add_256(a, b, c), karatsuba_multiply_add_256(a, b, c));
    assert_eq!(
        compiler_optimized_multiply_add_256(a, b, c),
        compiler_optimized_multiply_add_256(a, b, c)
    );
}

/// Karatsuba(128) — built from 64-bit Karatsuba calls — equals Schoolbook(128),
/// which decomposes differently.
#[test]
fn composability_128() {
    for &a in &samples_128() {
        for &b in &samples_128() {
            let k = karatsuba_multiply_add_128(a, b, 0x1234_5678);
            let s = compiler_optimized_multiply_add_128(a, b, 0x1234_5678);
            assert_eq!(k, s);
        }
    }
}

/// Operands whose low 32-bit halves sum to 2^32 or more on both sides force
/// the 33rd bit of each half sum: the middle-term subtraction must be carried
/// out in more than 64 bits, and Karatsuba must still equal schoolbook.
#[test]
fn karatsuba_carry_probe_64() {
    let x: u64 = (0x8000_0001 << 32) | 0xffff_ffff;
    let y: u64 = (0xfedc_ba98 << 32) | 0x9abc_def1;
    assert!((x & 0xffff_ffff) + (x >> 32) >= 1 << 32);
    assert!((y & 0xffff_ffff) + (y >> 32) >= 1 << 32);
    let expected = (x as u128) * (y as u128) + 0x42;
    assert_eq!(expected, 0x7f6e5d4e4b17e4a8b69d034965432151);
    assert_eq!(karatsuba_multiply_add(x, y, 0x42), expected);
    assert_eq!(compiler_optimized_multiply_add(x, y, 0x42), expected);
}

/// A 256-bit product that overflows 256 bits wraps modulo 2^256.
#[test]
fn wrap_around_256() {
    let a = U256(0, 1);  // 2^128
    let b = U256(0, 2);  // 2^129
    let c = U256(5, 0);
    // a*b = 2^257, which wraps to 0; only c remains.
    assert_eq!(compiler_optimized_multiply_add_256(a, b, c), U256(5, 0));
    assert_eq!(karatsuba_multiply_add_256(a, b, c), U256(5, 0));
    assert_eq!(reference_256(a, b, c), U256(5, 0));
}
