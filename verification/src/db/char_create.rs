//! Values for a newly created character.

use crate::clock::unix_seconds;
use vstd::prelude::*;

verus! {

/// Latest clock reading, in seconds since the Unix epoch, whose birthday
/// number fits 32 bits.
pub const MAX_BIRTHDAY_SECONDS: u64 = 6_000_000_000_000;

/// The birthday number `yyyymmdd` for a clock reading, by a calendar of 365
/// days a year and 30 days a month.
pub open spec fn birthday_of(seconds: u64) -> int {
    let days = seconds as int / 86400;
    let year = 1970 + days / 365;
    let remaining = days % 365;
    let month = remaining / 30 + 1;
    let day = remaining % 30 + 1;
    year * 10000 + month * 100 + day
}

/// The birthday number for a clock reading, or zero where it would not fit.
pub open spec fn birthday_or_zero(seconds: u64) -> int {
    if seconds <= MAX_BIRTHDAY_SECONDS {
        birthday_of(seconds)
    } else {
        0
    }
}

/// The birthday number for a clock reading.
pub fn birthday_at(seconds: u64) -> (birthday: i32)
    requires
        seconds <= MAX_BIRTHDAY_SECONDS,
    ensures
        birthday == birthday_of(seconds),
{
    let days: u64 = seconds / 86400;
    let years: u64 = 1970 + days / 365;
    let remaining: u64 = days % 365;
    let month: u64 = remaining / 30 + 1;
    let day: u64 = remaining % 30 + 1;
    (years * 10000 + month * 100 + day) as i32
}

/// The birthday number for today, by the system clock; zero where the clock
/// is beyond `MAX_BIRTHDAY_SECONDS`.
pub fn chrono_free_birthday() -> (birthday: i32)
    ensures
        exists|seconds: u64| birthday == #[trigger] birthday_or_zero(seconds),
{
    let seconds = unix_seconds();
    if seconds <= MAX_BIRTHDAY_SECONDS {
        let birthday = birthday_at(seconds);
        assert(birthday == birthday_or_zero(seconds));
        birthday
    } else {
        assert(0 == birthday_or_zero(seconds));
        0
    }
}

} // verus!
