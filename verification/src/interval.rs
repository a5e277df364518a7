use vstd::prelude::*;

verus! {

/// Polling period, in seconds, used when the request carries no long-poll
/// wait time.
pub const DEFAULT_INTERVAL_SECONDS: u32 = 1;

/// The polling period, in seconds, derived from a request's optional wait
/// time: one second beyond the wait when present — so the next poll is never
/// scheduled tighter than the server-side long poll of the current one — and
/// the fixed default otherwise. Nothing else influences the period.
pub open spec fn spec_interval_seconds(wait_time_seconds: Option<i64>) -> int {
    match wait_time_seconds {
        Some(w) => w + 1,
        None => DEFAULT_INTERVAL_SECONDS as int,
    }
}

/// Computes the polling period once, at listen time; it is held constant for
/// the life of the loop.
pub fn interval_seconds(wait_time_seconds: Option<i64>) -> (r: u32)
    requires
        wait_time_seconds matches Some(w) ==> 0 <= w && w + 1 <= u32::MAX,
    ensures
        r == spec_interval_seconds(wait_time_seconds),
{
    match wait_time_seconds {
        Some(w) => w as u32 + 1,
        None => DEFAULT_INTERVAL_SECONDS,
    }
}

} // verus!
