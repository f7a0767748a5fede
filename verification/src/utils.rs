//! The clock.

use vstd::prelude::*;
use std::time::{Duration, SystemTime, SystemTimeError};

verus! {

/// `std::time::SystemTime`: a reading of the system clock, carried through
/// as it is.
#[verifier::external_type_specification]
#[verifier::external_body]
pub struct ExSystemTime(std::time::SystemTime);

/// `std::time::SystemTimeError`: the error of a clock set before the epoch,
/// carried through as it is.
#[verifier::external_type_specification]
#[verifier::external_body]
pub struct ExSystemTimeError(std::time::SystemTimeError);

/// `SystemTime::now`: the system clock's reading. Nothing is claimed of it.
#[verifier::external_body]
fn system_now() -> SystemTime {
    SystemTime::now()
}

/// `SystemTime::duration_since`, counted from `UNIX_EPOCH`: the time from the
/// epoch to `now`, or an error for a clock set before the epoch. Nothing is
/// claimed of which.
#[verifier::external_body]
fn since_unix_epoch(now: &SystemTime) -> Result<Duration, SystemTimeError> {
    now.duration_since(std::time::UNIX_EPOCH)
}

/// `Duration::as_secs`: the whole seconds of a duration.
pub assume_specification[ Duration::as_secs ](duration: &Duration) -> (secs: u64)
;

/// `Duration::subsec_millis`: the part of a duration below one second, in
/// whole milliseconds, which is less than one thousand.
pub assume_specification[ Duration::subsec_millis ](duration: &Duration) -> (millis: u32)
    ensures
        millis < 1000,
;

/// The milliseconds in `secs` seconds and `subsec_millis` milliseconds, or
/// `u64::MAX` where that count does not fit.
pub open spec fn spec_timestamp(secs: u64, subsec_millis: u32) -> u64 {
    if secs * 1000 + subsec_millis <= u64::MAX {
        (secs * 1000 + subsec_millis) as u64
    } else {
        u64::MAX
    }
}

/// The milliseconds in `secs` seconds and `subsec_millis` milliseconds, or
/// `u64::MAX` where that count does not fit.
#[verifier::when_used_as_spec(spec_timestamp)]
pub fn timestamp(secs: u64, subsec_millis: u32) -> (millis: u64)
    ensures
        millis == spec_timestamp(secs, subsec_millis),
{
    match secs.checked_mul(1000) {
        Some(whole) => match whole.checked_add(subsec_millis as u64) {
            Some(millis) => millis,
            None => u64::MAX,
        },
        None => u64::MAX,
    }
}

/// The milliseconds since the Unix epoch by the system clock. A clock set
/// before the epoch reads as 0.
pub fn current_time() -> u64 {
    let now = system_now();
    match since_unix_epoch(&now) {
        Ok(elapsed) => timestamp(elapsed.as_secs(), elapsed.subsec_millis()),
        Err(_) => 0,
    }
}

} // verus!
