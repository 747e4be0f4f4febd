//! Reading the monotonic clock.
use vstd::prelude::*;

use std::time::{Duration, Instant};

verus! {

/// A point of the monotonic clock.
#[verifier::external_type_specification]
#[verifier::external_body]
pub struct ExInstant(Instant);

/// Calls `std::time::Instant::now`. The instant is the machine's clock reading, so
/// nothing is promised of it.
#[verifier::external_body]
pub(crate) fn instant_now() -> Instant {
    Instant::now()
}

/// Calls `std::time::Instant::elapsed` on `started`. How much time has passed is the
/// machine's business, so nothing is promised of the duration.
#[verifier::external_body]
pub(crate) fn instant_elapsed(started: &Instant) -> Duration {
    started.elapsed()
}

/// Calls `std::time::Duration::as_millis`. The duration is opaque here, so nothing is
/// promised of the count.
#[verifier::external_body]
pub(crate) fn duration_as_millis(duration: Duration) -> u128 {
    duration.as_millis()
}

/// Whole milliseconds since `started`, as `Duration::as_millis` counts them.
pub(crate) fn elapsed_ms_u128(started: &Instant) -> u128 {
    duration_as_millis(instant_elapsed(started))
}

/// Whole milliseconds since `started`, narrowed to `u64` as `as` narrows.
pub(crate) fn elapsed_ms(started: &Instant) -> u64 {
    elapsed_ms_u128(started) as u64
}

} // verus!
