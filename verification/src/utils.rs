//! Small helpers around a run.
use std::time::{Duration, Instant};
use vstd::prelude::*;

verus! {

/// The monotonic clock reading of std, carried through as an opaque value.
#[verifier::external_type_specification]
#[verifier::external_body]
pub struct ExInstant(std::time::Instant);

/// Trusted: `Instant::now` reads the clock. Nothing is claimed of the reading.
pub assume_specification[ std::time::Instant::now ]() -> (now: Instant);

/// Trusted: `Instant::elapsed` measures the time since the reading was taken.
/// Nothing is claimed of the duration, which depends on the clock.
pub assume_specification[ std::time::Instant::elapsed ](start: &Instant) -> (elapsed: Duration);

/// Runs `f` once and returns its result together with the time the call took.
///
/// The result is whatever `f` returns: it satisfies the postcondition of `f`.
/// The duration depends on the clock and is not specified.
pub fn time_execution<F, T>(f: F) -> (timed: (T, Duration))
    where F: FnOnce() -> T
    requires
        f.requires(()),
    ensures
        f.ensures((), timed.0),
{
    let start = Instant::now();
    let result = f();
    let duration = start.elapsed();
    (result, duration)
}

} // verus!
