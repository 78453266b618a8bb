//! Small shared computations.

use vstd::prelude::*;

verus! {

/// The non-negative duration from `start` to `stop`, in milliseconds.
/// `None` when either endpoint is absent or the interval would be negative.
pub open spec fn elapsed_between(start: Option<u64>, stop: Option<u64>) -> Option<u64> {
    match (start, stop) {
        (Some(b), Some(e)) => if b <= e {
            Some((e - b) as u64)
        } else {
            None
        },
        _ => None,
    }
}

/// Executable form of [`elapsed_between`].
pub fn elapsed(start: Option<u64>, stop: Option<u64>) -> (r: Option<u64>)
    ensures
        r == elapsed_between(start, stop),
{
    match (start, stop) {
        (Some(b), Some(e)) => if b <= e {
            Some(e - b)
        } else {
            None
        },
        _ => None,
    }
}

} // verus!
