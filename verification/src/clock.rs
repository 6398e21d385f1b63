//! The time that the status reports.

use std::time::{Duration, SystemTime, SystemTimeError, UNIX_EPOCH};
use vstd::prelude::*;

verus! {

/// A reading of the system clock: `std::time::SystemTime`.
#[verifier::external_type_specification]
#[verifier::external_body]
pub struct ExSystemTime(SystemTime);

/// What tells that one reading lies before another: `std::time::SystemTimeError`.
#[verifier::external_type_specification]
#[verifier::external_body]
pub struct ExSystemTimeError(SystemTimeError);

/// `std::time::SystemTime::now`: reads the clock. What it reads is the machine's to say, so nothing
/// is claimed of it.
#[verifier::external_body]
fn read_clock() -> SystemTime {
    SystemTime::now()
}

/// `std::time::SystemTime::duration_since`, from the start of 1970. A clock may stand before that,
/// so nothing is claimed of the outcome.
#[verifier::external_body]
fn since_epoch(now: SystemTime) -> Result<Duration, SystemTimeError> {
    now.duration_since(UNIX_EPOCH)
}

/// `std::time::Duration::as_millis`: the whole milliseconds of a span of time. Nothing is known of
/// the span, so nothing is claimed of the number.
#[verifier::external_body]
fn whole_millis(span: Duration) -> u128 {
    span.as_millis()
}

/// The milliseconds that are reported: those since 1970 as far as they fit, and none on a clock
/// that stands before 1970.
pub open spec fn reported_millis(millis: Option<u128>) -> u64 {
    match millis {
        Some(millis) => if millis <= u64::MAX {
            millis as u64
        } else {
            u64::MAX
        },
        None => 0,
    }
}

/// Turns what a clock reads into what is reported.
pub fn clamp_millis(millis: Option<u128>) -> (reported: u64)
    ensures
        reported == reported_millis(millis),
{
    match millis {
        Some(millis) => if millis <= u64::MAX as u128 {
            millis as u64
        } else {
            u64::MAX
        },
        None => 0,
    }
}

/// What is reported never exceeds what the clock reads, is exactly that as long as it fits, and is as
/// much as fits otherwise. A clock without a reading reports nothing.
pub proof fn reported_times_are_read(millis: Option<u128>)
    ensures
        millis is None ==> reported_millis(millis) == 0,
        millis matches Some(read) ==> reported_millis(millis) <= read,
        millis matches Some(read) ==> (reported_millis(millis) == read || reported_millis(millis)
            == 0xFFFF_FFFF_FFFF_FFFF),
{
}

/// The time now, in milliseconds since 1970: what `clamp_millis` makes of the clock's reading.
/// Which time that is, the clock decides, so nothing is promised of it here.
pub fn now_unix_ms() -> (now: u64) {
    let millis: Option<u128> = match since_epoch(read_clock()) {
        Ok(span) => Some(whole_millis(span)),
        Err(_) => None,
    };
    clamp_millis(millis)
}

} // verus!
