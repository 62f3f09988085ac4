//! The clocks: the wall clock, read through chrono, and std's monotonic
//! clock.

use vstd::prelude::*;

verus! {

/// The current Unix time in whole seconds: `chrono::Utc::now().timestamp()`
/// taken as unsigned. Nothing is promised of the value: it is the time.
#[verifier::external_body]
pub(crate) fn unix_now() -> (t: u64) {
    chrono::Utc::now().timestamp() as u64
}

/// std's `Instant`, a moment of the monotonic clock.
#[verifier::external_type_specification]
#[verifier::external_body]
pub struct ExInstant(std::time::Instant);

/// std's `Instant::now`: the current moment of the monotonic clock.
/// Nothing is promised of it: it is the time.
#[verifier::external_body]
pub(crate) fn monotonic_now() -> (i: std::time::Instant) {
    std::time::Instant::now()
}

/// The whole milliseconds elapsed since `start` on the monotonic clock
/// (std's `Instant::elapsed` and `Duration::as_millis`, converted to `u64`,
/// the largest `u64` where it does not fit). Nothing is promised of the
/// value: it is the time.
#[verifier::external_body]
pub(crate) fn millis_since(start: &std::time::Instant) -> (ms: u64) {
    u64::try_from(start.elapsed().as_millis()).unwrap_or(u64::MAX)
}

} // verus!
