use ethers::types::U256;
use price_and_swap_bot::amount::Amount;

fn from_dec(text: &str) -> Amount {
    Amount { limbs: U256::from_dec_str(text).unwrap().0 }
}

#[test]
fn zero_is_zero() {
    assert!(Amount::zero().is_zero());
    assert_eq!(Amount::zero().limbs, [0, 0, 0, 0]);
    assert_eq!(Amount::zero().limbs, U256::zero().0);
}

#[test]
fn is_zero_looks_at_every_word() {
    assert!(!Amount { limbs: [1, 0, 0, 0] }.is_zero());
    assert!(!Amount { limbs: [0, 1, 0, 0] }.is_zero());
    assert!(!Amount { limbs: [0, 0, 1, 0] }.is_zero());
    assert!(!Amount { limbs: [0, 0, 0, 1] }.is_zero());
}

#[test]
fn max_value_matches_u256() {
    assert_eq!(Amount::max_value().limbs, U256::max_value().0);
    assert_eq!(Amount::max_value().limbs, [u64::MAX; 4]);
}

#[test]
fn from_u64_matches_u256() {
    assert_eq!(Amount::from_u64(0).limbs, U256::from(0u64).0);
    assert_eq!(Amount::from_u64(10_000).limbs, [10_000, 0, 0, 0]);
    assert_eq!(Amount::from_u64(u64::MAX).limbs, U256::from(u64::MAX).0);
}

#[test]
fn from_u128_matches_u256() {
    assert_eq!(Amount::from_u128(0).limbs, [0, 0, 0, 0]);
    assert_eq!(Amount::from_u128(1 << 64).limbs, [0, 1, 0, 0]);
    assert_eq!(Amount::from_u128((7 << 64) + 5).limbs, [5, 7, 0, 0]);
    assert_eq!(Amount::from_u128(u128::MAX).limbs, U256::from(u128::MAX).0);
    let sample: u128 = 0x0123_4567_89ab_cdef_fedc_ba98_7654_3210;
    assert_eq!(Amount::from_u128(sample).limbs, U256::from(sample).0);
}

#[test]
fn checked_sub_gives_the_difference() {
    let r = Amount::from_u64(10).checked_sub(Amount::from_u64(3));
    assert_eq!(r, Some(Amount::from_u64(7)));
}

#[test]
fn checked_sub_of_equals_is_zero() {
    let r = Amount::from_u64(10).checked_sub(Amount::from_u64(10));
    assert_eq!(r, Some(Amount::zero()));
}

#[test]
fn checked_sub_below_zero_is_none() {
    assert_eq!(Amount::from_u64(3).checked_sub(Amount::from_u64(10)), None);
    assert_eq!(Amount::zero().checked_sub(Amount::max_value()), None);
}

#[test]
fn checked_sub_borrows_across_words() {
    let r = Amount { limbs: [0, 1, 0, 0] }.checked_sub(Amount::from_u64(1));
    assert_eq!(r, Some(Amount { limbs: [u64::MAX, 0, 0, 0] }));
}

#[test]
fn checked_mul_gives_the_product() {
    let r = Amount::from_u64(3).checked_mul(Amount::from_u64(5));
    assert_eq!(r, Some(Amount::from_u64(15)));
}

#[test]
fn checked_mul_carries_across_words() {
    let two_pow_64 = Amount { limbs: [0, 1, 0, 0] };
    assert_eq!(two_pow_64.checked_mul(two_pow_64), Some(Amount { limbs: [0, 0, 1, 0] }));
    let r = Amount::from_u64(u64::MAX).checked_mul(Amount::from_u64(u64::MAX));
    assert_eq!(r, Some(Amount::from_u128(u64::MAX as u128 * u64::MAX as u128)));
}

#[test]
fn checked_mul_by_zero_is_zero() {
    assert_eq!(Amount::max_value().checked_mul(Amount::zero()), Some(Amount::zero()));
}

#[test]
fn checked_mul_overflow_is_none() {
    let two_pow_128 = Amount { limbs: [0, 0, 1, 0] };
    assert_eq!(two_pow_128.checked_mul(two_pow_128), None);
    assert_eq!(Amount::max_value().checked_mul(Amount::from_u64(2)), None);
}

#[test]
fn checked_mul_largest_product_that_fits() {
    let two_pow_128_less_one = Amount { limbs: [u64::MAX, u64::MAX, 0, 0] };
    let r = two_pow_128_less_one.checked_mul(two_pow_128_less_one);
    let expected = from_dec(
        "115792089237316195423570985008687907852589419931798687112530834793049593217025",
    );
    assert_eq!(r, Some(expected));
}

#[test]
fn checked_div_rounds_down() {
    let r = Amount::from_u64(100).checked_div(Amount::from_u64(7));
    assert_eq!(r, Some(Amount::from_u64(14)));
}

#[test]
fn checked_div_by_zero_is_none() {
    assert_eq!(Amount::from_u64(100).checked_div(Amount::zero()), None);
    assert_eq!(Amount::zero().checked_div(Amount::zero()), None);
}

#[test]
fn checked_div_of_wide_values() {
    let r = Amount::max_value().checked_div(Amount::from_u64(10_000));
    let expected = from_dec(
        "11579208923731619542357098500868790785326998466564056403945758400791312963",
    );
    assert_eq!(r, Some(expected));
    let by_wide = Amount::max_value().checked_div(Amount { limbs: [0, 0, 0, 1] });
    assert_eq!(by_wide, Some(Amount::from_u64(u64::MAX)));
}

#[test]
fn words_are_least_significant_first() {
    let value = U256::from_dec_str("340282366920938463463374607431768211456").unwrap();
    assert_eq!(Amount { limbs: value.0 }, Amount { limbs: [0, 0, 1, 0] });
    assert_eq!(U256(Amount::from_u128(1 << 100).limbs), U256::from(1u128 << 100));
}
