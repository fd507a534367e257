//! Splitting a nanosecond timestamp into clock fields.

use vstd::prelude::*;

verus! {

/// Nanoseconds in one millisecond.
pub const NANOS_PER_MILLI: u64 = 1_000_000;

/// Nanoseconds in one second.
pub const NANOS_PER_SECOND: u64 = 1_000_000_000;

/// Hours, minutes, seconds and milliseconds of a timestamp given in nanoseconds.
/// The hours are not wrapped at 24; what is left below a millisecond is cut off.
pub open spec fn split_time_spec(time: nat) -> (nat, nat, nat, nat) {
    (
        time / 1_000_000_000 / 60 / 60,
        (time / 1_000_000_000 / 60) % 60,
        (time / 1_000_000_000) % 60,
        (time % 1_000_000_000) / 1_000_000,
    )
}

/// The fields stay in their ranges, and put together again they give the
/// timestamp in whole milliseconds.
pub proof fn lemma_split_time(time: nat)
    ensures
        split_time_spec(time).1 < 60,
        split_time_spec(time).2 < 60,
        split_time_spec(time).3 < 1000,
        ((split_time_spec(time).0 * 60 + split_time_spec(time).1) * 60 + split_time_spec(
            time,
        ).2) * 1000 + split_time_spec(time).3 == time / 1_000_000,
{
}

/// Splits a timestamp in nanoseconds into hours, minutes, seconds and milliseconds.
pub fn split_time(time: u64) -> (r: (u64, u8, u8, u16))
    ensures
        (r.0 as nat, r.1 as nat, r.2 as nat, r.3 as nat) == split_time_spec(time as nat),
        r.1 < 60,
        r.2 < 60,
        r.3 < 1000,
{
    let total_seconds: u64 = time / NANOS_PER_SECOND;
    let total_minutes: u64 = total_seconds / 60;
    let h: u64 = total_minutes / 60;
    let s: u64 = total_seconds % 60;
    let m: u64 = total_minutes % 60;
    let ns: u64 = time % NANOS_PER_SECOND;
    let ms: u64 = ns / NANOS_PER_MILLI;
    (h, m as u8, s as u8, ms as u16)
}

} // verus!
