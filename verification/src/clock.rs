//! The system clock, read as whole seconds since the Unix epoch.

use vstd::prelude::*;

verus! {

/// A reading of the system clock, passed on unread.
#[verifier::external_type_specification]
#[verifier::external_body]
pub struct ExSystemTime(std::time::SystemTime);

/// The error of `SystemTime::duration_since`, passed on unread.
#[verifier::external_type_specification]
#[verifier::external_body]
pub struct ExSystemTimeError(std::time::SystemTimeError);

/// `SystemTime::now`: the time on the system clock. Nothing is known of it.
#[verifier::external_body]
pub(crate) fn system_time() -> std::time::SystemTime {
    std::time::SystemTime::now()
}

/// `SystemTime::duration_since` with `UNIX_EPOCH` as the earlier time. It
/// fails for a time before the epoch.
#[verifier::external_body]
pub(crate) fn since_epoch(time: &std::time::SystemTime) -> Result<
    std::time::Duration,
    std::time::SystemTimeError,
> {
    time.duration_since(std::time::UNIX_EPOCH)
}

/// `Duration::as_secs`: the whole seconds of a duration.
#[verifier::external_body]
pub(crate) fn whole_seconds(duration: &std::time::Duration) -> u64 {
    duration.as_secs()
}

/// The time now in whole seconds since the Unix epoch, or `None` where the
/// clock stands before the epoch or beyond what an `i64` counts.
pub fn unix_time_now() -> (now: Option<i64>)
    ensures
        now matches Some(seconds) ==> 0 <= seconds,
{
    let time = system_time();
    match since_epoch(&time) {
        Ok(elapsed) => seconds_to_time(whole_seconds(&elapsed)),
        Err(_) => None,
    }
}

/// A count of seconds since the epoch as a point in time, where an `i64`
/// holds it.
pub open spec fn time_of_seconds(seconds: u64) -> Option<i64> {
    if seconds <= i64::MAX {
        Some(seconds as i64)
    } else {
        None
    }
}

/// A count of seconds since the epoch as a point in time: the same number,
/// or `None` where it is beyond what an `i64` counts.
pub fn seconds_to_time(seconds: u64) -> (time: Option<i64>)
    ensures
        time == time_of_seconds(seconds),
{
    if seconds <= 0x7fff_ffff_ffff_ffff {
        Some(seconds as i64)
    } else {
        None
    }
}

} // verus!
