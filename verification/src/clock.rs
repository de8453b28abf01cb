//! The system clock.
//!
//! Nothing is claimed of what the clock shows: two readings may differ in any
//! way, and the later one may be the smaller.
//!
//! Time is counted from the Unix epoch, so a clock that stands before the
//! epoch shows no time that can be counted. Such a reading stands for the
//! epoch itself, the earliest time there is.

use vstd::prelude::*;

verus! {

/// `std::time::SystemTime`, a reading of the system clock. Its inside is not
/// modelled.
#[verifier::external_type_specification]
#[verifier::external_body]
pub struct ExSystemTime(std::time::SystemTime);

/// `std::time::SystemTimeError`, the outcome of measuring from a time that is
/// the later of the two. Its inside is not modelled.
#[verifier::external_type_specification]
#[verifier::external_body]
pub struct ExSystemTimeError(std::time::SystemTimeError);

/// `std::time::SystemTime::now` reads the clock. Nothing is claimed of the
/// reading.
pub assume_specification[ std::time::SystemTime::now ]() -> std::time::SystemTime;

/// `std::time::SystemTime::duration_since` measures from `earlier` to `time`
/// and fails where `earlier` is the later of the two. Nothing is claimed of
/// the outcome.
pub assume_specification[ std::time::SystemTime::duration_since ](
    time: &std::time::SystemTime,
    earlier: std::time::SystemTime,
) -> Result<std::time::Duration, std::time::SystemTimeError>;

/// `std::time::Duration::as_nanos` gives a duration in nanoseconds. Nothing is
/// claimed of the number.
pub assume_specification[ std::time::Duration::as_nanos ](duration: &std::time::Duration) -> u128;

/// Hands out `std::time::UNIX_EPOCH`, the time from which the clock is counted.
/// Nothing is claimed of it.
#[verifier::external_body]
fn unix_epoch() -> std::time::SystemTime {
    std::time::UNIX_EPOCH
}

/// The Unix epoch, in nanoseconds since the Unix epoch.
pub const EPOCH: u128 = 0;

/// The time that a reading of the clock stands for: the reading itself, and
/// the epoch where the clock stood before the epoch.
pub open spec fn time_of(reading: Option<u128>) -> u128 {
    match reading {
        Some(nanos) => nanos,
        None => EPOCH,
    }
}

/// The time that a reading of the clock stands for.
pub fn reading_or_epoch(reading: Option<u128>) -> (now: u128)
    ensures
        now == time_of(reading),
{
    match reading {
        Some(nanos) => nanos,
        None => EPOCH,
    }
}

/// What the clock shows, in nanoseconds since the Unix epoch; `None` where the
/// clock stands before the epoch.
pub(crate) fn unix_nanos() -> Option<u128> {
    let now = std::time::SystemTime::now();
    match now.duration_since(unix_epoch()) {
        Ok(elapsed) => Some(elapsed.as_nanos()),
        Err(_) => None,
    }
}

} // verus!
