//! Wall-clock access for session timestamps.

use vstd::prelude::*;

verus! {

/// Relies on `std::time::SystemTime::now`: the current wall-clock time as
/// milliseconds since the Unix epoch, negative on a clock set before it and
/// saturating at the extremes — total on every clock reading. Nothing can
/// be promised of what the clock reads.
#[verifier::external_body]
pub fn now_millis() -> i64 {
    match std::time::SystemTime::now().duration_since(std::time::UNIX_EPOCH) {
        Ok(d) => i64::try_from(d.as_millis()).unwrap_or(i64::MAX),
        Err(e) => i64::try_from(e.duration().as_millis()).map_or(i64::MIN, |ms| -ms),
    }
}

} // verus!
