//! The wall clock, read through the standard library.

use vstd::prelude::*;
use std::time::{Duration, Instant};

verus! {

/// `std::time::Instant`, a reading of the monotonic clock. Nothing inside it
/// is visible here.
#[verifier::external_type_specification]
#[verifier::external_body]
pub struct ExInstant(std::time::Instant);

/// Calls `std::time::Instant::now`. Nothing is claimed of the reading.
#[verifier::external_body]
fn instant_now() -> (now: Instant) {
    Instant::now()
}

/// Calls `std::time::Instant::elapsed`: the time that has passed since
/// `start` was read. Nothing is claimed of it.
#[verifier::external_body]
fn instant_elapsed(start: &Instant) -> (elapsed: Duration) {
    start.elapsed()
}

/// Calls `std::time::Duration::as_millis`: the whole milliseconds in
/// `duration`. Nothing is claimed of the number.
#[verifier::external_body]
fn duration_as_millis(duration: &Duration) -> (millis: u128) {
    duration.as_millis()
}

/// A clock that counts the milliseconds since it was started. Its readings
/// depend on when they are taken, so nothing is known of them beforehand.
pub(crate) struct Stopwatch {
    started: Instant,
}

impl Stopwatch {
    /// A stopwatch that starts now.
    pub(crate) fn start() -> (stopwatch: Stopwatch) {
        Stopwatch { started: instant_now() }
    }

    /// The whole milliseconds since the start, or `u64::MAX` where they do
    /// not fit.
    pub(crate) fn elapsed_ms(&self) -> (millis: u64) {
        let elapsed: Duration = instant_elapsed(&self.started);
        let millis: u128 = duration_as_millis(&elapsed);
        saturate_to_u64(millis)
    }
}

/// `millis` where it fits into 64 bits, `u64::MAX` where it does not.
pub(crate) fn saturate_to_u64(millis: u128) -> (saturated: u64)
    ensures
        millis <= u64::MAX ==> saturated == millis,
        millis > u64::MAX ==> saturated == u64::MAX,
{
    if millis > u64::MAX as u128 {
        u64::MAX
    } else {
        millis as u64
    }
}

} // verus!
