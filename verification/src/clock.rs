//! Numbers taken from the system clock, used to make file names and clipboard probes unique.
use vstd::prelude::*;
use std::time::{Duration, SystemTime, SystemTimeError, UNIX_EPOCH};

verus! {

#[verifier::external_type_specification]
#[verifier::external_body]
pub struct ExSystemTime(SystemTime);

#[verifier::external_type_specification]
#[verifier::external_body]
pub struct ExSystemTimeError(SystemTimeError);

/// Calls `SystemTime::now`. Nothing is claimed of the time it reads.
#[verifier::external_body]
fn now() -> SystemTime {
    SystemTime::now()
}

/// Calls `SystemTime::duration_since` with `UNIX_EPOCH`. Nothing is claimed of
/// the result, which depends on the clock.
#[verifier::external_body]
fn since_epoch(t: &SystemTime) -> Result<Duration, SystemTimeError> {
    t.duration_since(UNIX_EPOCH)
}

/// Calls `Duration::as_nanos`. Nothing is claimed of the result, since the
/// duration itself is opaque here.
#[verifier::external_body]
fn as_nanos(d: &Duration) -> u128 {
    d.as_nanos()
}

/// The number made of a clock reading: its nanoseconds since the Unix epoch, or
/// 0 when the clock gave none (it is set before the epoch).
pub fn nanos_or_zero(reading: Option<u128>) -> (res: u128)
    ensures
        res == (match reading {
            Some(nanos) => nanos,
            None => 0,
        }),
{
    match reading {
        Some(nanos) => nanos,
        None => 0,
    }
}

/// Nanoseconds since the Unix epoch on the system clock, or 0 when the clock is
/// set before the epoch.
pub fn unique_id() -> u128 {
    let reading = match since_epoch(&now()) {
        Ok(elapsed) => Some(as_nanos(&elapsed)),
        Err(_) => None,
    };
    nanos_or_zero(reading)
}

} // verus!
