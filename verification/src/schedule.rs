use vstd::prelude::*;

verus! {

/// A day in milliseconds.
pub const DAY_MS: i64 = 86_400_000;

/// An hour of the day.
pub open spec fn is_hour(hour: u32) -> bool {
    hour < 24
}

/// How long to wait for the daily clearing of the queue, in milliseconds,
/// when today's hour of clearing is `until_ms` away: that long where the hour
/// is still to come, and a day more where it is past.
pub open spec fn autoclear_wait(until_ms: int) -> int {
    if until_ms >= 0 {
        until_ms
    } else if until_ms + DAY_MS >= 0 {
        until_ms + DAY_MS
    } else {
        0
    }
}

/// Whether `hour` is an hour of the day.
pub fn valid_hour(hour: u32) -> (valid: bool)
    ensures
        valid == is_hour(hour),
{
    hour < 24
}

/// How long to wait for the daily clearing of the queue.
pub fn autoclear_wait_ms(until_ms: i64) -> (wait: u64)
    ensures
        wait == autoclear_wait(until_ms as int),
{
    if until_ms >= 0 {
        until_ms as u64
    } else if until_ms + DAY_MS >= 0 {
        (until_ms + DAY_MS) as u64
    } else {
        0
    }
}

} // verus!
