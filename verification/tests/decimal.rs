use terra_vegas::decimal::{Decimal, DECIMAL_FRACTIONAL};
use terra_vegas::error::StdError;

#[test]
fn parses_decimal_strings() {
    assert_eq!(Decimal::from_str("1"), Ok(Decimal { atomics: DECIMAL_FRACTIONAL }));
    assert_eq!(Decimal::from_str("0.01"), Ok(Decimal { atomics: 10_000_000_000_000_000 }));
    assert_eq!(Decimal::from_str("0"), Ok(Decimal::zero()));
    assert_eq!(Decimal::from_str("1.188"), Ok(Decimal { atomics: 1_188_000_000_000_000_000 }));
}

#[test]
fn refuses_what_is_no_decimal() {
    assert_eq!(Decimal::from_str(""), Err(StdError::ParseDecimal));
    assert_eq!(Decimal::from_str(".23"), Err(StdError::ParseDecimal));
    assert_eq!(Decimal::from_str("1.2.3"), Err(StdError::ParseDecimal));
    assert_eq!(Decimal::from_str("0.1234567890123456789"), Err(StdError::ParseDecimal));
    assert_eq!(Decimal::from_str("abc"), Err(StdError::ParseDecimal));
}

#[test]
fn from_parsed_maps_both_outcomes() {
    assert_eq!(Decimal::from_parsed(Some(5)), Ok(Decimal { atomics: 5 }));
    assert_eq!(Decimal::from_parsed(None), Err(StdError::ParseDecimal));
}

#[test]
fn ratio_rounds_down() {
    assert_eq!(Decimal::from_ratio(1, 3).atomics, 333_333_333_333_333_333);
    assert_eq!(Decimal::from_ratio(36, 35).atomics, 1_028_571_428_571_428_571);
    assert_eq!(Decimal::from_ratio(2, 1).atomics, 2 * DECIMAL_FRACTIONAL);
}

#[test]
fn product_rounds_down() {
    let coefficient = Decimal::from_str("0.188").unwrap();
    assert_eq!(coefficient.checked_mul_uint(1000), Some(188));
    let left = Decimal::from_str("0.99").unwrap();
    assert_eq!(left.checked_mul_uint(188), Some(186));
    assert_eq!(Decimal::one().checked_mul_uint(u128::MAX), Some(u128::MAX));
    assert_eq!(Decimal::zero().checked_mul_uint(u128::MAX), Some(0));
}

#[test]
fn product_beyond_the_range_is_none() {
    let two = Decimal { atomics: 2 * DECIMAL_FRACTIONAL };
    assert_eq!(two.checked_mul_uint(u128::MAX), None);
    assert_eq!(two.checked_mul_uint(u128::MAX / 2), Some(u128::MAX - 1));
    let just_above_one = Decimal { atomics: DECIMAL_FRACTIONAL + 1 };
    assert_eq!(just_above_one.checked_mul_uint(u128::MAX), None);
    let largest = Decimal { atomics: u128::MAX };
    assert_eq!(largest.checked_mul_uint(DECIMAL_FRACTIONAL), Some(u128::MAX));
    assert_eq!(largest.checked_mul_uint(DECIMAL_FRACTIONAL + 1), None);
}

#[test]
fn subtraction_is_checked() {
    let one = Decimal::one();
    let tax = Decimal::from_str("0.01").unwrap();
    assert_eq!(one.checked_sub(tax), Some(Decimal { atomics: 990_000_000_000_000_000 }));
    assert_eq!(tax.checked_sub(one), None);
}

#[test]
fn prints_decimals() {
    assert_eq!(Decimal::from_str("0.188").unwrap().to_text(), "0.188");
    assert_eq!(Decimal { atomics: 34_640_000_000_000_000_000 }.to_text(), "34.64");
    assert_eq!(Decimal::one().to_text(), "1");
}
