//! The moment after which the router refuses to execute a swap.

use crate::amount::{amount_of, Amount};
use crate::error::SwapError;
use std::time::{Duration, SystemTime, SystemTimeError, UNIX_EPOCH};
use vstd::prelude::*;

verus! {

/// How long a swap stays executable when no horizon is chosen: five minutes.
pub const DEFAULT_HORIZON_SECS: u64 = 300;

#[verifier::external_type_specification]
#[verifier::external_body]
pub struct ExSystemTime(SystemTime);

#[verifier::external_type_specification]
#[verifier::external_body]
pub struct ExSystemTimeError(SystemTimeError);

/// `SystemTime::now` reads the system clock; nothing is claimed of the reading.
pub assume_specification[ SystemTime::now ]() -> SystemTime;

/// Calls `SystemTime::duration_since` with `UNIX_EPOCH`, which measures the
/// time from the epoch to `time` and fails when `time` lies before the
/// epoch; nothing is claimed of the outcome.
#[verifier::external_body]
fn since_unix_epoch(time: &SystemTime) -> Result<Duration, SystemTimeError> {
    time.duration_since(UNIX_EPOCH)
}

/// `Duration::as_secs` gives the whole seconds of a duration; nothing is
/// claimed of their number.
pub assume_specification[ Duration::as_secs ](duration: &Duration) -> u64;

/// The deadline that lies `horizon_seconds` after `now`, both in seconds
/// since the Unix epoch. The sum is taken in 256 bits and cannot overflow.
pub fn compute_deadline(now: u64, horizon_seconds: u64) -> (deadline: Amount)
    ensures
        deadline@ == now + horizon_seconds,
        deadline == amount_of((now + horizon_seconds) as nat),
        horizon_seconds > 0 ==> deadline@ > now,
{
    Amount::from_u128(now as u128 + horizon_seconds as u128)
}

/// The deadline for a clock reading: a reading that failed gives
/// `ClockError`, any other the deadline `horizon_seconds` after it.
pub open spec fn deadline_spec(reading: Option<u64>, horizon_seconds: u64) -> Result<
    Amount,
    SwapError,
> {
    match reading {
        Some(now) => Ok(amount_of((now + horizon_seconds) as nat)),
        None => Err(SwapError::ClockError),
    }
}

/// The deadline that follows from a reading of the clock, where `None`
/// stands for a clock that could not be read or that is set before the epoch.
pub fn deadline_from_reading(reading: Option<u64>, horizon_seconds: u64) -> (r: Result<
    Amount,
    SwapError,
>)
    ensures
        r == deadline_spec(reading, horizon_seconds),
        r matches Ok(deadline) ==> reading matches Some(now) && deadline@ == now + horizon_seconds,
{
    match reading {
        Some(now) => Ok(compute_deadline(now, horizon_seconds)),
        None => Err(SwapError::ClockError),
    }
}

/// Reads the system clock as whole seconds since the Unix epoch; `None` when
/// the clock is set before the epoch.
pub fn read_unix_time() -> Option<u64> {
    let time = SystemTime::now();
    match since_unix_epoch(&time) {
        Ok(elapsed) => Some(elapsed.as_secs()),
        Err(_) => None,
    }
}

/// The deadline `horizon_seconds` from now, by the system clock. Whatever
/// the clock says, the result is the one [`deadline_from_reading`] gives for
/// some reading.
pub fn deadline_from_now(horizon_seconds: u64) -> (r: Result<Amount, SwapError>)
    ensures
        exists|reading: Option<u64>| r == deadline_spec(reading, horizon_seconds),
{
    deadline_from_reading(read_unix_time(), horizon_seconds)
}

} // verus!
