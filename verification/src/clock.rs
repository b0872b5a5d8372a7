//! The one place the library touches a clock.

use vstd::prelude::*;

verus! {

/// Relies on `std::time::SystemTime::now`: a reading of the system clock,
/// handed back as whole nanoseconds since the Unix epoch, or 0 if the clock
/// reads earlier than the epoch. Nothing is promised of the value — the
/// system clock is not even monotonic — so every caller's contract holds
/// for all possible readings.
#[verifier::external_body]
pub(crate) fn now_nanos() -> u64 {
    match std::time::SystemTime::now().duration_since(std::time::UNIX_EPOCH) {
        Ok(d) => d.as_nanos() as u64,
        Err(_) => 0,
    }
}

} // verus!
