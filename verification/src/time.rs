//! The wall-clock time source behind the scheduler.
//!
//! A reading depends on the host clock, so nothing is promised of its
//! value: the scheduler's decisions are verified for every reading the
//! host could feed in.

use vstd::prelude::*;

verus! {

/// Declares `std::time::SystemTime`, the opaque host wall-clock
/// reading, so that it can pass through signatures here.
#[verifier::external_type_specification]
#[verifier::external_body]
pub struct ExSystemTime(std::time::SystemTime);

/// Declares `std::time::SystemTimeError`, the opaque error of a
/// backwards `duration_since`, so that it can pass through signatures
/// here.
#[verifier::external_type_specification]
#[verifier::external_body]
pub struct ExSystemTimeError(std::time::SystemTimeError);

/// Relies on `std::time::SystemTime::now`: the host's wall clock; the
/// reading is time-dependent, so nothing pins it down.
pub assume_specification[ std::time::SystemTime::now ]() -> std::time::SystemTime;

/// Relies on `std::time::SystemTime::duration_since`: the elapsed time
/// from `earlier` to `this`, an error if `earlier` is the later one.
pub assume_specification[ std::time::SystemTime::duration_since ](
    this: &std::time::SystemTime,
    earlier: std::time::SystemTime,
) -> Result<core::time::Duration, std::time::SystemTimeError>;

/// Relies on `core::time::Duration::as_nanos`: the duration in whole
/// nanoseconds.
pub assume_specification[ core::time::Duration::as_nanos ](
    this: &core::time::Duration,
) -> u128;

/// Relies on `std::time::SystemTime::UNIX_EPOCH`: the reference point
/// of Unix time.
#[verifier::external_body]
fn unix_epoch() -> std::time::SystemTime {
    std::time::SystemTime::UNIX_EPOCH
}

/// Nanoseconds of wall-clock time since the Unix epoch, or an error if
/// the host clock reads earlier than the epoch.
pub fn sys_nanos() -> Result<u128, std::time::SystemTimeError> {
    let now: std::time::SystemTime = std::time::SystemTime::now();
    match now.duration_since(unix_epoch()) {
        Ok(duration_since_epoch) => Ok(duration_since_epoch.as_nanos()),
        Err(e) => Err(e),
    }
}

} // verus!
