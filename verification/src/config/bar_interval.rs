//! Strategy bar cadence: bar length in whole minutes, and the conversions
//! between that cadence and timestamps, durations and 1-minute strides.

use vstd::prelude::*;

verus! {

/// Bar interval in whole minutes (e.g. 15 means 15-minute bars).
pub type Minutes = u32;

/// Default 15-minute bars (strategy execution, GEX cache, live poll cadence).
pub const BAR_INTERVAL_MINUTES: Minutes = 15;

/// Widening conversion of a minute count to `usize`.
fn u32_to_usize(x: u32) -> (r: usize)
    ensures
        r as int == x as int,
{
    x as usize
}

/// Seconds per bar bucket (for aligning Unix timestamps to bar starts).
pub fn bucket_secs_i64(minutes: Minutes) -> (r: i64)
    ensures
        r == minutes as int * 60,
{
    (minutes as i64) * 60
}

/// Live main loop: milliseconds to sleep between bar polls.
pub fn poll_interval_ms(minutes: Minutes) -> (r: u64)
    ensures
        r == minutes as int * 60_000,
{
    (minutes as u64) * 60_000
}

/// Background GEX poll: seconds between polls.
pub fn poll_interval_secs_u64(minutes: Minutes) -> (r: u64)
    ensures
        r == minutes as int * 60,
{
    (minutes as u64) * 60
}

/// The stride that a bar interval occupies in 1-minute slots, never below one.
pub open spec fn stride_of(minutes: Minutes) -> int {
    if minutes == 0 { 1 } else { minutes as int }
}

/// How many strategy bars fit in a trading day of `bars_per_day_1m` one-minute
/// slots (e.g. 390 / 15 = 26). A zero interval counts as one minute.
pub fn bars_per_day_1m_div_interval(bars_per_day_1m: usize, minutes: Minutes) -> (r: usize)
    ensures
        r as int == bars_per_day_1m as int / stride_of(minutes),
{
    let m = if minutes == 0 { 1u32 } else { minutes };
    let stride = u32_to_usize(m);
    bars_per_day_1m / stride
}

/// Stride in 1-minute bars (capacity / indexing against `bars.len()`).
pub fn minutes_stride_usize(minutes: Minutes) -> (r: usize)
    ensures
        r as int == minutes as int,
{
    u32_to_usize(minutes)
}

/// Floor-divide a 1-minute bar count into strategy bars (e.g. 45 gives 3 when
/// `minutes == 15`). A zero interval counts as one minute.
pub fn strategy_bars_from_1m_count(bars_1m: i64, minutes: Minutes) -> (r: i64)
    ensures
        bars_1m >= 0 ==> r as int == (bars_1m as int) / stride_of(minutes),
        bars_1m < 0 ==> r as int == -((-(bars_1m as int)) / stride_of(minutes)),
{
    let m: i64 = if minutes == 0 { 1 } else { minutes as i64 };
    bars_1m / m
}

} // verus!
