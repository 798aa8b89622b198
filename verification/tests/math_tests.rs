use yieldvault_contract::math::{
    convert_to_assets, convert_to_shares, mul_div, price_per_share, share_fraction_bps,
};
use yieldvault_contract::Error;

#[test]
fn mul_div_rounds_down() {
    assert_eq!(mul_div(10, 10, 3), Ok(33));
    assert_eq!(mul_div(7, 3, 7), Ok(3));
    assert_eq!(mul_div(0, 123, 5), Ok(0));
    assert_eq!(mul_div(1, 1, 2), Ok(0));
}

#[test]
fn mul_div_zero_denominator() {
    assert_eq!(mul_div(1, 2, 0), Err(Error::DivisionByZero));
    // A zero denominator wins over an overflowing product.
    assert_eq!(mul_div(u128::MAX, 2, 0), Err(Error::DivisionByZero));
}

#[test]
fn mul_div_overflow() {
    assert_eq!(mul_div(u128::MAX, 2, 2), Err(Error::MathOverflow));
    assert_eq!(mul_div(u128::MAX, 1, 1), Ok(u128::MAX));
    assert_eq!(mul_div(1u128 << 64, 1u128 << 64, 1), Err(Error::MathOverflow));
}

#[test]
fn convert_to_shares_bootstraps_one_to_one() {
    assert_eq!(convert_to_shares(1_000, 0, 0), Ok(1_000));
    assert_eq!(convert_to_shares(1_000, 0, 500), Ok(1_000));
    assert_eq!(convert_to_shares(1_000, 500, 0), Ok(1_000));
}

#[test]
fn convert_to_shares_is_proportional_and_rounds_down() {
    assert_eq!(convert_to_shares(100, 1_000, 2_000), Ok(50));
    assert_eq!(convert_to_shares(1, 2, 3), Ok(0));
    assert_eq!(convert_to_shares(10, 3, 4), Ok(7));
    assert_eq!(convert_to_shares(u128::MAX, 2, 1), Err(Error::MathOverflow));
}

#[test]
fn convert_to_assets_values() {
    assert_eq!(convert_to_assets(500, 0, 1_000), Ok(0));
    assert_eq!(convert_to_assets(50, 1_000, 2_000), Ok(100));
    assert_eq!(convert_to_assets(7, 4, 3), Ok(5));
    assert_eq!(convert_to_assets(u128::MAX, 1, 2), Err(Error::MathOverflow));
}

#[test]
fn price_per_share_values() {
    assert_eq!(price_per_share(0, 0, 1_000_000), Ok(1_000_000));
    assert_eq!(price_per_share(1_000, 1_500, 1_000_000), Ok(1_500_000));
    assert_eq!(price_per_share(3, 1, 10), Ok(3));
    assert_eq!(price_per_share(1, u128::MAX, 2), Err(Error::MathOverflow));
}

#[test]
fn share_fraction_bps_values() {
    assert_eq!(share_fraction_bps(10, 0, 10_000), Ok(0));
    assert_eq!(share_fraction_bps(250, 1_000, 10_000), Ok(2_500));
    assert_eq!(share_fraction_bps(1, 3, 10_000), Ok(3_333));
    assert_eq!(share_fraction_bps(u128::MAX, 1, 10_000), Err(Error::MathOverflow));
}

#[test]
fn round_trip_never_gains_example() {
    let (ts, ta) = (3u128, 4u128);
    let shares = convert_to_shares(10, ts, ta).unwrap();
    let back = convert_to_assets(shares, ts, ta).unwrap();
    assert_eq!(shares, 7);
    assert_eq!(back, 9);
    assert!(back <= 10);
}

#[test]
fn more_assets_never_lower_share_value() {
    let before = convert_to_assets(300, 1_000, 1_000).unwrap();
    let after = convert_to_assets(300, 1_000, 1_500).unwrap();
    assert_eq!(before, 300);
    assert_eq!(after, 450);
    let p0 = price_per_share(1_000, 1_000, 100).unwrap();
    let p1 = price_per_share(1_000, 1_001, 100).unwrap();
    assert!(p0 <= p1);
}
