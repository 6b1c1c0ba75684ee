//! Wall-clock timing of one fallible operation.

use crate::error::SchemeError;
use std::time::{Duration, Instant};
use vstd::prelude::*;

verus! {

/// `std::time::Instant`, a reading of the monotonic clock. Nothing of what
/// it holds is known here.
#[verifier::external_type_specification]
#[verifier::external_body]
pub struct ExInstant(std::time::Instant);

/// `Instant::now` reads the monotonic clock. Nothing is claimed of the
/// reading.
pub assume_specification[ std::time::Instant::now ]() -> (now: std::time::Instant);

/// `Instant::elapsed` gives the time since the reading was taken. Nothing is
/// claimed of it.
pub assume_specification[ std::time::Instant::elapsed ](start: &std::time::Instant) -> (elapsed:
    std::time::Duration);

/// `Duration::as_nanos` gives the whole duration in nanoseconds. Nothing is
/// claimed of the number.
pub assume_specification[ std::time::Duration::as_nanos ](duration: &std::time::Duration) -> (nanos:
    u128);

/// Runs `operation` once and measures the wall-clock time that the call
/// took on the monotonic clock.
///
/// A failure of the operation is handed on as it is, without a duration.
pub fn time<F, R>(operation: F) -> (out: Result<(R, Duration), SchemeError>) where
    F: FnOnce() -> Result<R, SchemeError>,

    requires
        operation.requires(()),
    ensures
        match out {
            Ok((result, _)) => operation.ensures((), Ok(result)),
            Err(error) => operation.ensures((), Err(error)),
        },
{
    let start = Instant::now();
    match operation() {
        Ok(result) => {
            let elapsed = start.elapsed();
            Ok((result, elapsed))
        },
        Err(error) => Err(error),
    }
}

/// The nanoseconds that count for a sample that took `elapsed` nanoseconds
/// by the clock.
///
/// A call too fast for the clock to tell counts as one nanosecond, so that
/// a throughput can always be had by dividing by the result.
pub fn sample_nanos(elapsed: u128) -> (nanos: u128)
    ensures
        nanos == if elapsed == 0 {
            1
        } else {
            elapsed
        },
        nanos > 0,
{
    if elapsed == 0 {
        1
    } else {
        elapsed
    }
}

} // verus!
