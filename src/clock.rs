//! Wall-clock time.
use std::time::{Duration, SystemTime, UNIX_EPOCH};
use vstd::prelude::*;

verus! {

#[verifier::external_type_specification]
#[verifier::external_body]
pub struct ExSystemTime(SystemTime);

/// Relies on std's `SystemTime::now`: a reading of the system clock, of
/// which nothing is known.
#[verifier::external_body]
fn now() -> SystemTime {
    SystemTime::now()
}

/// Relies on std's `SystemTime::duration_since`, taken from `UNIX_EPOCH`:
/// `None` when `t` lies before the epoch.
#[verifier::external_body]
fn since_epoch(t: &SystemTime) -> Option<Duration> {
    t.duration_since(UNIX_EPOCH).ok()
}

/// Relies on std's `Duration::as_millis`: the whole milliseconds in `d`.
#[verifier::external_body]
fn whole_millis(d: &Duration) -> u128 {
    d.as_millis()
}

/// A reading in whole milliseconds since the epoch, cut to its low 64
/// bits; 0 for a reading before the epoch (`None`).
pub open spec fn millis_or_zero_spec(m: Option<u128>) -> u64 {
    match m {
        Some(x) => x as u64,
        None => 0,
    }
}

/// Converts a clock reading as `millis_or_zero_spec` says.
pub fn millis_or_zero(m: Option<u128>) -> (r: u64)
    ensures
        r == millis_or_zero_spec(m),
{
    match m {
        Some(x) => x as u64,
        None => 0,
    }
}

/// Milliseconds since the Unix epoch, in the low 64 bits; 0 when the clock
/// is set before the epoch.
pub fn date_now() -> u64 {
    let reading = match since_epoch(&now()) {
        Some(d) => Some(whole_millis(&d)),
        None => None,
    };
    millis_or_zero(reading)
}

} // verus!
