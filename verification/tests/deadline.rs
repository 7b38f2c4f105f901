use price_and_swap_bot::amount::Amount;
use price_and_swap_bot::deadline::{
    compute_deadline, deadline_from_now, deadline_from_reading, read_unix_time,
    DEFAULT_HORIZON_SECS,
};
use price_and_swap_bot::error::SwapError;

#[test]
fn deadline_is_now_plus_horizon() {
    assert_eq!(compute_deadline(1000, 300), Amount::from_u64(1300));
}

#[test]
fn default_horizon_is_five_minutes() {
    assert_eq!(DEFAULT_HORIZON_SECS, 300);
}

#[test]
fn deadline_with_zero_horizon_is_now() {
    assert_eq!(compute_deadline(1000, 0), Amount::from_u64(1000));
}

#[test]
fn deadline_does_not_wrap() {
    assert_eq!(compute_deadline(u64::MAX, 300), Amount { limbs: [299, 1, 0, 0] });
    assert_eq!(compute_deadline(u64::MAX, u64::MAX), Amount { limbs: [u64::MAX - 1, 1, 0, 0] });
}

#[test]
fn deadline_from_a_reading() {
    assert_eq!(deadline_from_reading(Some(1000), 300), Ok(Amount::from_u64(1300)));
    assert_eq!(deadline_from_reading(Some(0), 300), Ok(Amount::from_u64(300)));
}

#[test]
fn failed_reading_is_a_clock_error() {
    assert_eq!(deadline_from_reading(None, 300), Err(SwapError::ClockError));
}

#[test]
fn system_clock_is_past_the_epoch() {
    let now = read_unix_time().expect("clock before the epoch");
    // 2020-09-13
    assert!(now > 1_600_000_000);
}

#[test]
fn deadline_from_now_lies_ahead() {
    let before = read_unix_time().unwrap();
    let deadline = deadline_from_now(300).unwrap();
    let after = read_unix_time().unwrap();
    assert_eq!(deadline.limbs[1..], [0, 0, 0]);
    assert!(before + 300 <= deadline.limbs[0]);
    assert!(deadline.limbs[0] <= after + 300);
}
