//! The monotonic clock that samplers read.

use vstd::prelude::*;
use std::time::Duration;
use std::time::Instant;

verus! {

/// `std::time::Instant`, a point on the system's monotonic clock. Nothing
/// of what it holds is visible here.
#[verifier::external_type_specification]
#[verifier::external_body]
pub struct ExInstant(Instant);

/// `std::time::Instant::now` returns the current point on the monotonic
/// clock. Nothing is claimed of it.
pub assume_specification[ Instant::now ]() -> Instant;

/// `std::time::Instant::saturating_duration_since` returns the time from
/// `earlier` to the instant, or a duration of zero where `earlier` is the
/// later of the two. Nothing is claimed of it.
pub assume_specification[ Instant::saturating_duration_since ](
    instant: &Instant,
    earlier: Instant,
) -> Duration;

/// `std::time::Duration::as_nanos` returns the duration in whole
/// nanoseconds. Nothing is claimed of the number.
pub assume_specification[ Duration::as_nanos ](duration: &Duration) -> u128;

/// A clock that counts nanoseconds from the moment it was started.
pub struct Clock {
    origin: Instant,
}

impl Clock {
    /// Starts a clock.
    pub fn start() -> Clock {
        Clock { origin: Instant::now() }
    }

    /// The nanoseconds since the clock was started. No two readings need
    /// agree, so nothing is promised of the number.
    pub fn now(&self) -> u128 {
        Instant::now().saturating_duration_since(self.origin).as_nanos()
    }
}

} // verus!
