//! Elapsed time between two instants of a monotonic clock.

use vstd::prelude::*;

verus! {

/// The time that has passed from `earlier` to `now`, and zero where `earlier`
/// lies after `now`.
pub open spec fn elapsed(now: u64, earlier: u64) -> nat {
    if now >= earlier {
        (now - earlier) as nat
    } else {
        0
    }
}

/// Computes [`elapsed`].
pub fn elapsed_since(now: u64, earlier: u64) -> (d: u64)
    ensures
        d == elapsed(now, earlier),
{
    if now >= earlier {
        now - earlier
    } else {
        0
    }
}

} // verus!
