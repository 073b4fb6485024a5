//! The wall clock, in whole seconds since the Unix epoch.

use core::time::Duration;
use std::time::{SystemTime, SystemTimeError, UNIX_EPOCH};
use vstd::prelude::*;

verus! {

/// A point in time as the system clock measures it.
#[verifier::external_type_specification]
#[verifier::external_body]
pub struct ExSystemTime(SystemTime);

/// The error of a time difference that would be negative.
#[verifier::external_type_specification]
#[verifier::external_body]
pub struct ExSystemTimeError(SystemTimeError);

/// `SystemTime::now` reads the system clock. Nothing is stated of what it
/// returns.
pub assume_specification[ SystemTime::now ]() -> (now: SystemTime);

/// `SystemTime::duration_since` gives the time elapsed between two points, or
/// an error where the second is the later one. Nothing is stated of which.
pub assume_specification[ SystemTime::duration_since ](
    time: &SystemTime,
    earlier: SystemTime,
) -> (elapsed: Result<Duration, SystemTimeError>);

/// `Duration::as_secs` gives the whole seconds of a duration. Nothing is
/// stated of their number.
pub assume_specification[ Duration::as_secs ](duration: &Duration) -> (seconds: u64);

/// The Unix epoch, `std::time::UNIX_EPOCH`.
#[verifier::external_body]
fn unix_epoch() -> (epoch: SystemTime) {
    UNIX_EPOCH
}

/// Whole seconds since the Unix epoch by the system clock; zero for a clock
/// that is set before the epoch.
pub fn unix_seconds() -> (seconds: u64) {
    let now = SystemTime::now();
    seconds_of(now.duration_since(unix_epoch()))
}

/// `unix_seconds` as a signed number: the reading of the clock, or
/// `i64::MAX` for a reading beyond it. Which reading the clock gives is not
/// stated; what becomes of each reading is, and so the result is never
/// negative.
pub fn unix_seconds_signed() -> (seconds: i64)
    ensures
        exists|reading: u64| seconds == #[trigger] capped_reading(reading),
        0 <= seconds,
{
    cap_reading(unix_seconds())
}

/// The whole seconds of the time elapsed since the epoch, as the clock gave
/// it: zero where the clock gave an error because it is set before the
/// epoch. The seconds of a duration come from `Duration::as_secs`.
pub fn seconds_of(elapsed: Result<Duration, SystemTimeError>) -> (seconds: u64)
    ensures
        elapsed is Err ==> seconds == 0,
{
    match elapsed {
        Ok(duration) => duration.as_secs(),
        Err(_) => 0,
    }
}

/// A clock reading as a signed number: the reading itself, or `i64::MAX` for
/// a reading beyond it.
pub open spec fn capped_reading(reading: u64) -> i64 {
    if reading > i64::MAX {
        i64::MAX
    } else {
        reading as i64
    }
}

/// Computes `capped_reading`.
pub fn cap_reading(reading: u64) -> (seconds: i64)
    ensures
        seconds == capped_reading(reading),
{
    if reading > 0x7fff_ffff_ffff_ffff {
        0x7fff_ffff_ffff_ffff
    } else {
        reading as i64
    }
}

} // verus!
