//! The wall clock, read in whole seconds since the Unix epoch.

use vstd::prelude::*;
use std::time::{Duration, SystemTime, SystemTimeError};

verus! {

/// `SystemTime` of std, a reading of the system clock. Its inside is opaque
/// here.
#[verifier::external_type_specification]
#[verifier::external_body]
pub struct ExSystemTime(SystemTime);

/// `SystemTimeError` of std, the error of `SystemTime::duration_since`. Its
/// inside is opaque here.
#[verifier::external_type_specification]
#[verifier::external_body]
pub struct ExSystemTimeError(SystemTimeError);

/// The number of whole seconds that a duration spans.
pub uninterp spec fn whole_secs(duration: Duration) -> u64;

/// `SystemTime::now` of std: the current reading of the system clock. Nothing
/// is claimed of the value, which differs from call to call.
pub assume_specification[ SystemTime::now ]() -> (now: SystemTime);

/// `Duration::as_secs` of std: the whole seconds of the duration.
pub assume_specification[ Duration::as_secs ](duration: &Duration) -> (secs: u64)
    ensures
        secs == whole_secs(*duration),
;

/// The time that has passed from the Unix epoch to a reading of the clock,
/// or an error for a reading that lies before the epoch. It is a function of
/// the reading alone.
pub uninterp spec fn elapsed_since_epoch(reading: SystemTime) -> Result<
    Duration,
    SystemTimeError,
>;

/// `SystemTime::duration_since` of std, asked for the time since
/// `std::time::UNIX_EPOCH`: the result is the time from the epoch to
/// `reading`, or an error when `reading` lies before the epoch.
#[verifier::external_body]
fn since_epoch(reading: &SystemTime) -> (elapsed: Result<Duration, SystemTimeError>)
    ensures
        elapsed == elapsed_since_epoch(*reading),
{
    reading.duration_since(std::time::UNIX_EPOCH)
}

/// The clock reading for an elapsed time since the epoch: its whole seconds,
/// or zero when the clock stood before the epoch.
pub open spec fn secs_of(elapsed: Result<Duration, SystemTimeError>) -> u64 {
    match elapsed {
        Ok(duration) => whole_secs(duration),
        Err(_) => 0,
    }
}

/// Turns the time elapsed since the epoch into whole seconds, reading a clock
/// that stands before the epoch as zero.
pub fn secs_or_zero(elapsed: Result<Duration, SystemTimeError>) -> (secs: u64)
    ensures
        secs == secs_of(elapsed),
{
    match elapsed {
        Ok(duration) => duration.as_secs(),
        Err(_) => 0,
    }
}

/// The current time in whole seconds since the Unix epoch, or zero if the
/// system clock stands before the epoch. The result is the whole seconds
/// from the epoch to a reading of the clock; which reading that is the clock
/// alone decides, so two calls need not agree.
pub fn now_secs() -> (secs: u64)
    ensures
        exists|reading: SystemTime| secs == secs_of(#[trigger] elapsed_since_epoch(reading)),
{
    let now = SystemTime::now();
    secs_or_zero(since_epoch(&now))
}

} // verus!
