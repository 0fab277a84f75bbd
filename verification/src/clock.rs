//! The monotonic clock a worker measures its report windows with.
//!
//! Nothing here is proved.  A reading of the clock depends on when it is taken,
//! so no specification below says what a reading is.

use vstd::prelude::*;

verus! {

/// `std::time::Instant`, a point on the monotonic clock, as an opaque type.
#[verifier::external_type_specification]
#[verifier::external_body]
pub struct ExInstant(std::time::Instant);

/// `Instant::now` returns the current point on the clock.
pub assume_specification[ std::time::Instant::now ]() -> (now: std::time::Instant)
;

/// `Instant::elapsed` returns the time that has passed since the instant was
/// taken.
pub assume_specification[ std::time::Instant::elapsed ](start: &std::time::Instant) -> (elapsed:
    core::time::Duration)
;

/// `Duration::as_nanos` returns the whole duration in nanoseconds.
pub assume_specification[ core::time::Duration::as_nanos ](d: &core::time::Duration) -> (nanos:
    u128)
;

} // verus!
