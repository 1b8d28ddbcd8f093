//! Deadline arithmetic for the timed wait.

use vstd::prelude::*;

verus! {

/// Computes the time remaining until `timeout_point`, underflow-safe: once
/// the deadline has passed the remaining time is zero, never a wrapped
/// subtraction. Both instants are ticks of one monotonic clock (the unit is
/// the caller's choice); a wait loop recomputes this before every wait so
/// that repeated wakeups cannot extend the deadline.
pub fn time_remaining(timeout_point: u64, now: u64) -> (remaining: u64)
    ensures
        remaining == if now > timeout_point {
            0u64
        } else {
            (timeout_point - now) as u64
        },
{
    if now > timeout_point {
        0
    } else {
        timeout_point - now
    }
}

} // verus!
