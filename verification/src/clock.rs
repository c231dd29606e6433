//! Wall-clock reading for the time-driven state machines.
//!
//! Every state machine of the library takes the current time as a plain
//! millisecond count; only the convenience entry points read the clock.

use vstd::prelude::*;

verus! {

#[verifier::external_type_specification]
#[verifier::external_body]
pub struct ExSystemTime(std::time::SystemTime);

/// The current time of the system clock.
///
/// Calls `SystemTime::now`. Nothing is claimed of the value: it depends on
/// the machine's clock.
#[verifier::external_body]
fn system_now() -> (r: std::time::SystemTime) {
    std::time::SystemTime::now()
}

/// The time elapsed from the Unix epoch to `t`; `None` when `t` is earlier.
///
/// Calls `SystemTime::duration_since` with `UNIX_EPOCH`, turning its error
/// into `None`. Nothing more is claimed of the value.
#[verifier::external_body]
fn since_unix_epoch(t: &std::time::SystemTime) -> (r: Option<std::time::Duration>) {
    match t.duration_since(std::time::UNIX_EPOCH) {
        Ok(d) => Some(d),
        Err(_) => None,
    }
}

/// A duration in whole milliseconds.
///
/// Calls `Duration::as_millis`; the duration is opaque here, so nothing is
/// claimed of the number.
#[verifier::external_body]
fn duration_millis(d: &std::time::Duration) -> (r: u128) {
    d.as_millis()
}

/// A duration in whole nanoseconds.
///
/// Calls `Duration::as_nanos`; the duration is opaque here, so nothing is
/// claimed of the number.
#[verifier::external_body]
fn duration_nanos(d: &std::time::Duration) -> (r: u128) {
    d.as_nanos()
}

/// Milliseconds since the Unix epoch; `None` when the system clock reads
/// a time before the epoch.
pub fn millis_since_epoch() -> (r: Option<u128>) {
    match since_unix_epoch(&system_now()) {
        Some(d) => Some(duration_millis(&d)),
        None => None,
    }
}

/// Nanoseconds since the Unix epoch; `None` when the system clock reads a
/// time before the epoch.
pub fn nanos_since_epoch() -> (r: Option<u128>) {
    match since_unix_epoch(&system_now()) {
        Some(d) => Some(duration_nanos(&d)),
        None => None,
    }
}

/// Milliseconds since the Unix epoch, cut to 64 bits, or 0 when the clock
/// reads a time before the epoch.
pub fn unix_time_millis() -> (r: u64) {
    match millis_since_epoch() {
        Some(m) => m as u64,
        None => 0,
    }
}

} // verus!
