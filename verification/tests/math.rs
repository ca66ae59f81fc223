use gmsol::fixed::{checked_pow, unit};
use gmsol::num::{checked_mul_div, diff, to_opposite_signed, to_signed, unsigned_abs};
use gmsol::utils::{apply_exponent_factor, apply_factor, apply_factors, usd_to_market_token_amount};

#[test]
fn mul_div_exact_values() {
    assert_eq!(checked_mul_div(10, 20, 3), Some(66));
    assert_eq!(checked_mul_div(7, 0, 3), Some(0));
    assert_eq!(checked_mul_div(7, 3, 0), None);
    // The product overflows a u128 but the quotient fits.
    assert_eq!(checked_mul_div(u128::MAX, u128::MAX, u128::MAX), Some(u128::MAX));
    assert_eq!(checked_mul_div(u128::MAX, 2, 4), Some(u128::MAX / 2));
    assert_eq!(checked_mul_div(1 << 100, 1 << 100, 1 << 90), Some(1 << 110));
    // The quotient overflows.
    assert_eq!(checked_mul_div(u128::MAX, 2, 1), None);
    assert_eq!(checked_mul_div(u128::MAX, u128::MAX, u128::MAX - 1), None);
}

#[test]
fn mul_div_matches_wide_arithmetic_on_small_values() {
    for a in [0u128, 1, 3, 17, 1_000_003, u64::MAX as u128] {
        for b in [0u128, 1, 5, 99, 123_456_789, u64::MAX as u128] {
            for c in [1u128, 2, 7, 1_000, u64::MAX as u128] {
                assert_eq!(checked_mul_div(a, b, c), Some(a * b / c));
            }
        }
    }
}

#[test]
fn signed_helpers() {
    assert_eq!(diff(3, 10), 7);
    assert_eq!(diff(10, 3), 7);
    assert_eq!(to_signed(5), Some(5));
    assert_eq!(to_signed(u128::MAX), None);
    assert_eq!(to_opposite_signed(5), Some(-5));
    assert_eq!(unsigned_abs(i128::MIN), 1u128 << 127);
    assert_eq!(unsigned_abs(-9), 9);
}

#[test]
fn unit_and_pow() {
    assert_eq!(unit(0), 1);
    assert_eq!(unit(9), 1_000_000_000);
    assert_eq!(unit(38), 10u128.pow(38));
    // 1.5 ^ 2 = 2.25 with 2 decimals.
    assert_eq!(checked_pow(150, 200, 100), Some(225));
    // Fractional exponents are not computed.
    assert_eq!(checked_pow(150, 150, 100), None);
    // Overflow.
    assert_eq!(checked_pow(u128::MAX, 200, 1), None);
}

#[test]
fn apply_factor_values() {
    // 1000 * 0.25 with 2 decimals.
    assert_eq!(apply_factor::<2>(&1000, &25), Some(250));
    assert_eq!(apply_factor::<20>(&10, &(5 * 10u128.pow(19))), Some(5));
    assert_eq!(apply_factor::<2>(&u128::MAX, &200), None);
}

#[test]
fn exponent_factor_values() {
    // Below one: 0.5 ^ 2 = 0.25, 0.5 ^ 1 = 0.5, 0.5 ^ 0 = 1.
    assert_eq!(apply_exponent_factor::<2>(50, 200), Some(25));
    assert_eq!(apply_exponent_factor::<2>(50, 100), Some(50));
    assert_eq!(apply_exponent_factor::<2>(50, 0), Some(100));
    assert_eq!(apply_exponent_factor::<9>(500_000_000, 1_000_000_000), Some(500_000_000));
    assert_eq!(apply_exponent_factor::<9>(3_000_000_000, 1_000_000_000), Some(3_000_000_000));
    assert_eq!(apply_exponent_factor::<9>(3_000_000_000, 0), Some(1_000_000_000));
    assert_eq!(apply_exponent_factor::<9>(1_000_000_000, 2_000_000_000), Some(1_000_000_000));
    // Zero: 0 ^ 2 = 0.
    assert_eq!(apply_exponent_factor::<2>(0, 200), Some(0));
    // One: one.
    assert_eq!(apply_exponent_factor::<2>(100, 300), Some(100));
    // Exponent zero and one.
    assert_eq!(apply_exponent_factor::<2>(300, 0), Some(100));
    assert_eq!(apply_exponent_factor::<2>(300, 100), Some(300));
    // 3 ^ 2 = 9.
    assert_eq!(apply_exponent_factor::<2>(300, 200), Some(900));
    // 0.5 * 3 ^ 2 = 4.5.
    assert_eq!(apply_factors::<2>(300, 50, 200), Some(450));
}

#[test]
fn usd_to_market_token_amount_values() {
    assert_eq!(usd_to_market_token_amount(1_000, 0, 0, 10), Some(100));
    assert_eq!(usd_to_market_token_amount(1_000, 500, 0, 10), Some(150));
    assert_eq!(usd_to_market_token_amount(1_000, 4_000, 2_000, 10), Some(500));
    assert_eq!(usd_to_market_token_amount(1_000, 0, 2_000, 10), None);
    assert_eq!(usd_to_market_token_amount(1_000, 4_000, 2_000, 0), None);
    assert_eq!(usd_to_market_token_amount(u128::MAX, 1, 0, 1), None);
}
