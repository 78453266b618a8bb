//! Reading the wall clock.
//!
//! Timestamps are milliseconds since the Unix epoch, as `u64`. The system
//! clock may jump backwards between two readings, so nothing is promised of
//! a raw reading; where the lifecycle needs a timestamp that does not
//! precede an earlier one, [`now_at_least`] clamps the raw reading to that
//! floor, and that clamping is verified.

use vstd::prelude::*;

verus! {

/// Relies on `std::time::SystemTime::now`, read against the Unix epoch and
/// converted to whole milliseconds. The clock may move arbitrarily between
/// calls, so no ensures is stated.
#[verifier::external_body]
pub(crate) fn system_now_millis() -> (t: u64) {
    match std::time::SystemTime::now().duration_since(std::time::UNIX_EPOCH) {
        Ok(d) => d.as_millis() as u64,
        Err(_) => 0,
    }
}

/// The current time, clamped so that it never precedes `floor`.
pub fn now_at_least(floor: u64) -> (t: u64)
    ensures
        floor <= t,
{
    let raw = system_now_millis();
    if raw >= floor {
        raw
    } else {
        floor
    }
}

} // verus!
