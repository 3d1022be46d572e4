//! Timestamps for the database: milliseconds since the UNIX epoch.
use vstd::prelude::*;
use std::time::{Duration, SystemTime};

verus! {

/// A reading of the system clock.
#[verifier::external_type_specification]
#[verifier::external_body]
pub struct ExSystemTime(SystemTime);

/// Calls `SystemTime::now`: the clock of the machine, so nothing is known of
/// the value.
#[verifier::external_body]
fn system_now() -> (r: SystemTime) {
    SystemTime::now()
}

/// Calls `SystemTime::duration_since` with `UNIX_EPOCH`: `None` when the
/// clock reads a time before the epoch. Nothing is known of the duration.
#[verifier::external_body]
fn since_epoch(t: &SystemTime) -> (r: Option<Duration>) {
    t.duration_since(std::time::UNIX_EPOCH).ok()
}

/// Calls `Duration::as_millis`: the whole milliseconds of a duration.
#[verifier::external_body]
fn duration_millis(d: &Duration) -> (r: u128) {
    d.as_millis()
}

/// The stored timestamp of a clock reading: its milliseconds truncated to
/// 64 bits as `as i64` does, and 0 for a clock before the epoch.
pub open spec fn stamp_of(millis: Option<u128>) -> i64 {
    match millis {
        Some(m) => m as i64,
        None => 0,
    }
}

/// The stored timestamp of a clock reading.
pub fn stamp(millis: Option<u128>) -> (r: i64)
    ensures
        r == stamp_of(millis),
{
    match millis {
        Some(m) => m as i64,
        None => 0,
    }
}

/// Milliseconds since the UNIX epoch (0 if the clock is before it). The
/// value comes from the clock, so no clause can fix it.
pub fn now_millis() -> (r: i64) {
    let now = system_now();
    let millis = match since_epoch(&now) {
        Some(d) => Some(duration_millis(&d)),
        None => None,
    };
    stamp(millis)
}

} // verus!
