//! The monotonic clock that the dashboard reads.

use vstd::prelude::*;
use std::time::{Duration, Instant};

verus! {

/// `std::time::Instant`, a point on the monotonic clock. Nothing is known
/// of what a value holds.
#[verifier::external_type_specification]
#[verifier::external_body]
pub struct ExInstant(Instant);

/// `Instant::now`: the present point on the monotonic clock. Nothing is
/// promised of the result.
pub assume_specification[ Instant::now ]() -> Instant;

/// `Instant::elapsed`: the time that has passed since `origin`. Nothing is
/// promised of the result.
pub assume_specification[ Instant::elapsed ](origin: &Instant) -> Duration;

/// `Duration::as_millis`: the whole milliseconds in `span`. Nothing is
/// promised of the result.
pub assume_specification[ Duration::as_millis ](span: &Duration) -> u128;

} // verus!
