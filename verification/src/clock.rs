//! The machine's clock.

use std::time::Duration;
use std::time::Instant;
use vstd::prelude::*;

verus! {

/// `Instant` of std: a moment of the machine's clock. Nothing of a moment
/// is visible here; moments are made, kept and measured from.
#[verifier::external_type_specification]
#[verifier::external_body]
pub struct ExInstant(Instant);

/// `Instant::now` of std: the present moment. It differs from call to call,
/// so nothing is claimed of it.
#[verifier::external_body]
pub(crate) fn now() -> Instant {
    Instant::now()
}

/// `Instant::elapsed` of std: the time that has passed since `start`. It
/// differs from call to call, so nothing is claimed of it.
#[verifier::external_body]
pub(crate) fn elapsed(start: &Instant) -> Duration {
    start.elapsed()
}

/// `Duration::as_millis` of std: the whole milliseconds in a span of time.
/// A span of time is opaque here, so nothing is claimed of the number.
#[verifier::external_body]
pub(crate) fn as_millis(span: &Duration) -> u128 {
    span.as_millis()
}

/// The whole milliseconds that have passed since `start`.
pub fn elapsed_millis(start: &Instant) -> u128 {
    let span = elapsed(start);
    as_millis(&span)
}

} // verus!
