//! Wall-clock time of day for scan reports.

use vstd::prelude::*;

verus! {

/// Hour, minute and second of the UTC day that lies `secs` seconds after the
/// Unix epoch.
pub open spec fn clock_of(secs: u64) -> (u32, u32, u32) {
    (((secs / 3600) % 24) as u32, ((secs / 60) % 60) as u32, (secs % 60) as u32)
}

/// Splits a count of seconds since the Unix epoch into the time of day.
pub fn clock_from_secs(secs: u64) -> (clock: (u32, u32, u32))
    ensures
        clock == clock_of(secs),
        clock.0 < 24,
        clock.1 < 60,
        clock.2 < 60,
{
    let seconds: u32 = (secs % 60) as u32;
    let minutes: u32 = ((secs / 60) % 60) as u32;
    let hours: u32 = ((secs / 3600) % 24) as u32;
    (hours, minutes, seconds)
}

/// The standard library's point in time on the system clock. Nothing is
/// known of what a value holds.
#[verifier::external_type_specification]
#[verifier::external_body]
pub struct ExSystemTime(std::time::SystemTime);

/// Reads the system clock with `std::time::SystemTime::now`. Nothing is
/// claimed of the value: it changes from call to call.
#[verifier::external_body]
fn now() -> (moment: std::time::SystemTime) {
    std::time::SystemTime::now()
}

/// The standard library's error for a moment that lies before the one it
/// is measured from. Nothing is known of what a value holds.
#[verifier::external_type_specification]
#[verifier::external_body]
pub struct ExSystemTimeError(std::time::SystemTimeError);

/// The time from `UNIX_EPOCH` to `moment`, by
/// `std::time::SystemTime::duration_since`, or its error where the moment
/// lies before the epoch. Nothing is claimed of the value.
#[verifier::external_body]
fn since_epoch(moment: &std::time::SystemTime) -> (elapsed: Result<
    std::time::Duration,
    std::time::SystemTimeError,
>) {
    moment.duration_since(std::time::SystemTime::UNIX_EPOCH)
}

/// The whole seconds of a span, by `std::time::Duration::as_secs`. Nothing
/// is claimed of the value.
#[verifier::external_body]
fn whole_seconds(elapsed: &std::time::Duration) -> (secs: u64) {
    elapsed.as_secs()
}

/// The current UTC time of day as hours, minutes and seconds. A clock that
/// stands before the Unix epoch reads as the epoch.
pub fn get_time() -> (clock: (u32, u32, u32))
    ensures
        exists|secs: u64| clock == clock_of(secs),
        clock.0 < 24,
        clock.1 < 60,
        clock.2 < 60,
{
    let moment = now();
    let secs: u64 = match since_epoch(&moment) {
        Ok(elapsed) => whole_seconds(&elapsed),
        Err(_) => 0,
    };
    clock_from_secs(secs)
}

} // verus!
