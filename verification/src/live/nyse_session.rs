//! NYSE regular session: hours, New York date and holidays.

use vstd::prelude::*;
use crate::dates::{
    format_day, in_day_range, is_weekend, iso_day_text, new_york_clock, new_york_day_minute,
    nyse_business_day, nyse_busday, weekday_of, MAX_INSTANT, MIN_INSTANT,
};

verus! {

/// Opening minute of the regular session (9:30 New York time).
pub const MARKET_OPEN_MIN: u32 = 570;
/// Closing minute of the regular session (16:00 New York time).
pub const MARKET_CLOSE_MIN: u32 = 960;

/// An instant (Unix seconds) with a four-digit year.
pub open spec fn valid_instant(now: i64) -> bool {
    MIN_INSTANT <= now <= MAX_INSTANT
}

/// New York day of `now`.
pub open spec fn et_day(now: i64) -> i32 {
    match new_york_clock(now) {
        Some(p) => p.0,
        None => 0,
    }
}

/// New York minute of the day of `now`.
pub open spec fn et_minute(now: i64) -> u32 {
    match new_york_clock(now) {
        Some(p) => p.1,
        None => 0,
    }
}

/// No session on the New York day of `now`: an NYSE holiday or weekend, or,
/// outside the holiday calendar, a weekend.
pub open spec fn closed_all_day(now: i64) -> bool {
    match nyse_business_day(et_day(now)) {
        Some(b) => !b,
        None => is_weekend(et_day(now) as int),
    }
}

/// Minutes from `now` to the next session open counted on the clock: 0 while
/// the session hours run, and after the close the minutes to 9:30 tomorrow.
pub open spec fn minutes_to_open(min: int) -> int {
    if min < MARKET_OPEN_MIN {
        MARKET_OPEN_MIN - min
    } else if min < MARKET_CLOSE_MIN {
        0
    } else {
        24 * 60 - min + MARKET_OPEN_MIN
    }
}

/// NYSE regular-session calendar: hours, New York date, holidays.
pub struct NyseSession;

impl NyseSession {
    /// Weekend or NYSE holiday: no session at all on the New York day of `now`.
    pub fn is_closed_all_day(now: i64) -> (r: bool)
        requires
            valid_instant(now),
        ensures
            r == closed_all_day(now),
    {
        let (day, _) = match new_york_day_minute(now) {
            Some(p) => p,
            None => (1, 0),
        };
        match nyse_busday(day) {
            Some(b) => !b,
            None => {
                let dow = weekday_of(day);
                dow == 0 || dow == 6
            },
        }
    }

    /// NYSE is open at `now`: a session day, within 9:30 to 16:00 New York time.
    pub fn is_open(now: i64) -> (r: bool)
        requires
            valid_instant(now),
        ensures
            r == (!closed_all_day(now) && MARKET_OPEN_MIN <= et_minute(now) < MARKET_CLOSE_MIN),
    {
        if Self::is_closed_all_day(now) {
            return false;
        }
        let min = et_minute_of_day(now);
        MARKET_OPEN_MIN <= min && min < MARKET_CLOSE_MIN
    }

    /// New York calendar date of `now` as `YYYY-MM-DD`.
    pub fn et_date_str(now: i64) -> (r: String)
        requires
            valid_instant(now),
        ensures
            r@ == iso_day_text(et_day(now)),
    {
        let (day, _) = match new_york_day_minute(now) {
            Some(p) => p,
            None => (1, 0),
        };
        format_day(day)
    }

    /// Minutes until the next session open by the clock (0 during session
    /// hours; weekends and holidays are not skipped).
    pub fn minutes_until_open(now: i64) -> (r: i64)
        requires
            valid_instant(now),
        ensures
            r == minutes_to_open(et_minute(now) as int),
    {
        let min = et_minute_of_day(now) as i64;
        let open = MARKET_OPEN_MIN as i64;
        let close = MARKET_CLOSE_MIN as i64;
        if min < open {
            open - min
        } else if min < close {
            0
        } else {
            (24 * 60 - min) + open
        }
    }
}

/// New York minute of the day of `now`.
fn et_minute_of_day(now: i64) -> (r: u32)
    requires
        valid_instant(now),
    ensures
        r == et_minute(now),
        r < 1440,
{
    match new_york_day_minute(now) {
        Some(p) => p.1,
        None => 0,
    }
}

} // verus!
