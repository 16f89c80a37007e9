use vstd::prelude::*;

verus! {

/// Length of one file-time tick is 100 ns, so this many ticks make a second.
pub const TICKS_PER_SECOND: u64 = 10_000_000;

/// Seconds from 1601-01-01T00:00:00Z, where file time starts, to the Unix epoch.
pub const SECONDS_FROM_1601_TO_1970: i64 = 11_644_473_600;

/// The Unix time, in whole seconds, of a file-time tick count.
pub open spec fn unix_seconds_of_ticks(ticks: u64) -> int {
    (ticks / TICKS_PER_SECOND) as int - SECONDS_FROM_1601_TO_1970
}

/// Converts a count of 100 ns ticks since 1601 to whole seconds since 1970,
/// truncating the sub-second part of the tick count.
pub fn windows_ticks_to_unix_seconds(windows_ticks: u64) -> (r: i64)
    ensures
        r as int == unix_seconds_of_ticks(windows_ticks),
{
    let whole_seconds: u64 = windows_ticks / TICKS_PER_SECOND;
    assert(whole_seconds <= u64::MAX / 10_000_000);
    whole_seconds as i64 - SECONDS_FROM_1601_TO_1970
}

/// The tick count held in a `FILETIME`'s two 32-bit halves.
pub open spec fn ticks_of_parts(low: u32, high: u32) -> int {
    high as int * 0x1_0000_0000 + low as int
}

/// Joins the low and high halves of a `FILETIME` into one tick count.
pub fn file_time_ticks(low: u32, high: u32) -> (r: u64)
    ensures
        r as int == ticks_of_parts(low, high),
{
    assert((high as u64) * 0x1_0000_0000u64 + (low as u64) <= u64::MAX) by (nonlinear_arith);
    (high as u64) * 0x1_0000_0000u64 + (low as u64)
}

/// Whole Unix seconds of a `FILETIME` given by its two halves.
pub fn file_time_to_unix_seconds(low: u32, high: u32) -> (r: i64)
    ensures
        r as int == unix_seconds_of_ticks(ticks_of_parts(low, high) as u64),
{
    let ticks = file_time_ticks(low, high);
    windows_ticks_to_unix_seconds(ticks)
}

} // verus!
