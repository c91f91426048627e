//! Wall-clock time, as a worker measures it.
//!
//! Each worker times itself from its own start. What a clock reads is never
//! part of a contract: the code that acts on a reading is verified for every
//! value that the reading may have.

use vstd::prelude::*;

verus! {

/// Trusted: `std::time::Instant`, a point on the monotonic clock. Opaque to
/// the verifier.
#[verifier::external_type_specification]
#[verifier::external_body]
pub struct ExInstant(std::time::Instant);

/// Trusted: `std::time::Instant::now` reads the monotonic clock. Nothing is
/// claimed of the reading.
pub assume_specification[ std::time::Instant::now ]() -> (now: std::time::Instant)
;

/// Trusted: `std::time::Instant::elapsed` gives the time since the instant.
/// Nothing is claimed of its length.
pub assume_specification[ std::time::Instant::elapsed ](instant: &std::time::Instant) -> (elapsed:
    std::time::Duration)
;

/// Trusted: `std::time::Duration::as_secs` gives the whole seconds of a
/// duration. Nothing is claimed of their number.
pub assume_specification[ std::time::Duration::as_secs ](duration: &std::time::Duration) -> (seconds:
    u64)
;

/// A running clock that reads the whole seconds since it was started.
pub struct Stopwatch {
    started: std::time::Instant,
}

impl Stopwatch {
    /// Starts a clock now.
    pub fn start() -> Stopwatch {
        Stopwatch { started: std::time::Instant::now() }
    }

    /// Whole seconds since the clock was started.
    pub fn elapsed_secs(&self) -> u64 {
        let elapsed = self.started.elapsed();
        elapsed.as_secs()
    }
}

} // verus!
