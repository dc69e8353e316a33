//! Declarations of the monotonic clock that the timed traversal samples.
//! A clock reading depends on when it is taken, so nothing is promised of
//! the values: the traversal's own result is what is verified.

use vstd::prelude::*;

verus! {

/// std::time::Instant, declared so that a sample of the monotonic clock can
/// pass through verified code. Its contents are opaque here.
#[verifier::external_type_specification]
#[verifier::external_body]
pub struct ExInstant(std::time::Instant);

/// Relies on std::time::Instant::now: a sample of a monotonic clock, immune
/// to calendar-time adjustments. Nothing can be promised of its value.
pub assume_specification[ std::time::Instant::now ]() -> std::time::Instant;

/// Relies on std::time::Instant::elapsed: the time passed since the sample
/// was taken. Nothing can be promised of its value.
pub assume_specification[ std::time::Instant::elapsed ](
    start: &std::time::Instant,
) -> std::time::Duration;

} // verus!
