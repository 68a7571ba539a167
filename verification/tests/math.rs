use curve_lvr::math::{_mul_div, mul_div, Error};
use curve_lvr::uint::U256;

fn n(x: u64) -> U256 {
    U256::from_u64(x)
}

#[test]
fn mul_div_small_values() {
    assert_eq!(mul_div(n(6), n(7), n(2)), Ok(n(21)));
    assert_eq!(mul_div(n(7), n(7), n(2)), Ok(n(24)));
    assert_eq!(mul_div(n(10), n(10), n(3)), Ok(n(33)));
    assert_eq!(mul_div(n(1), n(1), n(1)), Ok(n(1)));
}

#[test]
fn mul_div_by_zero_is_division_by_zero() {
    assert_eq!(mul_div(n(6), n(7), n(0)), Err(Error::DivisionByZero));
    assert_eq!(mul_div(n(0), n(0), n(0)), Err(Error::DivisionByZero));
    assert_eq!(
        mul_div(U256::max_value(), U256::max_value(), U256::zero()),
        Err(Error::DivisionByZero)
    );
    assert_eq!(_mul_div(n(1), n(2), n(0)), Err(Error::DivisionByZero));
}

#[test]
fn mul_div_max_max_one_overflows() {
    assert_eq!(mul_div(U256::max_value(), U256::max_value(), n(1)), Err(Error::Overflow));
    assert_eq!(_mul_div(U256::max_value(), U256::max_value(), n(1)), Err(Error::Overflow));
}

#[test]
fn mul_div_zero_factor_is_zero() {
    let max = U256::max_value();
    assert_eq!(mul_div(n(0), max, n(1)), Ok(n(0)));
    assert_eq!(mul_div(max, n(0), n(1)), Ok(n(0)));
    assert_eq!(mul_div(n(0), n(12345), max), Ok(n(0)));
    assert_eq!(mul_div(n(12345), n(0), n(7)), Ok(n(0)));
    assert_eq!(_mul_div(n(0), max, n(3)), Ok((n(0), false)));
}

#[test]
fn mul_div_divisor_above_product_is_zero_with_remainder() {
    assert_eq!(mul_div(n(3), n(4), n(13)), Ok(n(0)));
    assert_eq!(_mul_div(n(3), n(4), n(13)), Ok((n(0), true)));
    assert_eq!(_mul_div(n(3), n(4), U256::max_value()), Ok((n(0), true)));
}

#[test]
fn mul_div_product_wider_than_256_bits() {
    let max = U256::max_value();
    // max * max / max = max: the product needs 512 bits, the quotient fits.
    assert_eq!(_mul_div(max, max, max), Ok((max, false)));
    // 2^255 * 2 / 2 = 2^255.
    let two_255 = U256::from_limbs([0, 0, 0, 0x8000_0000_0000_0000]);
    assert_eq!(_mul_div(two_255, n(2), n(2)), Ok((two_255, false)));
    // 2^128 * 2^128 / 2 = 2^255.
    let two_128 = U256::from_limbs([0, 0, 1, 0]);
    assert_eq!(_mul_div(two_128, two_128, n(2)), Ok((two_255, false)));
    // 2^255 * 2 / 1 = 2^256 does not fit.
    assert_eq!(mul_div(two_255, n(2), n(1)), Err(Error::Overflow));
    assert_eq!(mul_div(two_128, two_128, n(1)), Err(Error::Overflow));
    // max * max / (max - 1) is just above max.
    let max_less_one = U256::from_limbs([u64::MAX - 1, u64::MAX, u64::MAX, u64::MAX]);
    assert_eq!(mul_div(max, max, max_less_one), Err(Error::Overflow));
}

#[test]
fn mul_div_matches_arbitrary_precision_reference() {
    let a = U256::from_limbs([
        0x8796a5b4c3d2e1f0,
        0x0f1e2d3c4b5a6978,
        0xfedcba9876543210,
        0x0123456789abcdef,
    ]);
    let b = U256::from_limbs([
        0x99aabbccddeeff00,
        0x1122334455667788,
        0x0123456789abcdef,
        0xdeadbeefcafebabe,
    ]);
    let c = U256::from_limbs([
        0x2233445566778899,
        0xaabbccddeeff0011,
        0x0123456789abcdef,
        0xfedcba9876543210,
    ]);
    let q = U256::from_limbs([
        0x246512d2e84f35e5,
        0xac31acb637a870fa,
        0x1150ccdf2c1575f5,
        0x00fe7d6c7fc36c43,
    ]);
    assert_eq!(_mul_div(a, b, c), Ok((q, true)));
    assert_eq!(mul_div(b, a, c), Ok(q));

    let x = U256::from_limbs([0x3039, 0, 0, 0x300]);
    let y = U256::from_limbs([0x3e7, 0, 0x0050000000000000, 0]);
    let z = U256::from_limbs([3, 0, 0x1c, 0]);
    let q3 = U256::from_limbs([
        0x4b15cbc14e5e0a72,
        0x915e0a72f054028c,
        0x4924924924924924,
        0x0892492492492492,
    ]);
    assert_eq!(_mul_div(x, y, z), Ok((q3, true)));
}

#[test]
fn mul_div_reports_whether_a_remainder_is_left() {
    assert_eq!(_mul_div(n(6), n(7), n(2)), Ok((n(21), false)));
    assert_eq!(_mul_div(n(7), n(7), n(2)), Ok((n(24), true)));
    assert_eq!(_mul_div(n(5), n(1), n(5)), Ok((n(1), false)));
}

#[test]
fn mul_div_does_not_hand_an_argument_back() {
    // Each of the three arguments differs from the result.
    assert_eq!(mul_div(n(1000), n(30), n(7)), Ok(n(4285)));
    assert_eq!(_mul_div(n(1000), n(30), n(7)), Ok((n(4285), true)));
}
