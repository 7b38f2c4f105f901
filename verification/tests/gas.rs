use ethers::types::U256;
use price_and_swap_bot::amount::Amount;
use price_and_swap_bot::error::SwapError;
use price_and_swap_bot::gas::{compute_adjusted_price, DEFAULT_GAS_MULTIPLIER_BPS};

#[test]
fn doubling_a_price_of_one_hundred() {
    assert_eq!(compute_adjusted_price(Amount::from_u64(100), 20_000), Ok(Amount::from_u64(200)));
}

#[test]
fn default_multiplier_doubles() {
    assert_eq!(DEFAULT_GAS_MULTIPLIER_BPS, 20_000);
    let r = compute_adjusted_price(Amount::from_u64(50), DEFAULT_GAS_MULTIPLIER_BPS);
    assert_eq!(r, Ok(Amount::from_u64(100)));
}

#[test]
fn multiplier_of_one_keeps_the_price() {
    assert_eq!(compute_adjusted_price(Amount::from_u64(77), 10_000), Ok(Amount::from_u64(77)));
}

#[test]
fn adjusted_price_is_rounded_down() {
    // 7 * 12500 / 10000 = 8.75
    assert_eq!(compute_adjusted_price(Amount::from_u64(7), 12_500), Ok(Amount::from_u64(8)));
    // 1 * 9999 / 10000 < 1
    assert_eq!(compute_adjusted_price(Amount::from_u64(1), 9_999), Ok(Amount::zero()));
}

#[test]
fn zero_multiplier_or_zero_price_gives_zero() {
    assert_eq!(compute_adjusted_price(Amount::from_u64(100), 0), Ok(Amount::zero()));
    assert_eq!(compute_adjusted_price(Amount::zero(), 20_000), Ok(Amount::zero()));
    assert_eq!(compute_adjusted_price(Amount::max_value(), 0), Ok(Amount::zero()));
}

#[test]
fn adjusted_price_overflows() {
    let r = compute_adjusted_price(Amount::max_value(), 20_000);
    assert_eq!(r, Err(SwapError::ArithmeticOverflow));
    let r = compute_adjusted_price(Amount::max_value(), 2);
    assert_eq!(r, Err(SwapError::ArithmeticOverflow));
}

#[test]
fn adjusted_price_at_the_edge_of_overflow() {
    let largest_fitting = U256::max_value() / U256::from(20_000);
    let r = compute_adjusted_price(Amount { limbs: largest_fitting.0 }, 20_000);
    let expected = largest_fitting * U256::from(20_000) / U256::from(10_000);
    assert_eq!(r, Ok(Amount { limbs: expected.0 }));
    let r = compute_adjusted_price(Amount { limbs: (largest_fitting + 1).0 }, 20_000);
    assert_eq!(r, Err(SwapError::ArithmeticOverflow));
}

#[test]
fn wide_multiplier() {
    let r = compute_adjusted_price(Amount::from_u64(10_000), u64::MAX);
    assert_eq!(r, Ok(Amount::from_u64(u64::MAX)));
}
