//! Calendar days and Eastern-time clock readings.
//!
//! A day is counted as in the proleptic Gregorian calendar with 0001-01-01 as
//! day 1 (so 1970-01-01 is day 719163). Parsing, formatting and time-zone
//! conversion are done by `chrono`, `chrono-tz` and `nyse-holiday-cal`; the
//! arithmetic on day numbers is done here.

use vstd::prelude::*;
use chrono::Datelike;
use chrono::Timelike;
use chrono::TimeZone;
use nyse_holiday_cal::HolidayCal;
use crate::gregorian::{day_text, day_ymd, law_day_text_order, valid_ymd, ymd_day, ymd_text};
use crate::text::lex_le;

verus! {

/// First day with a four-digit year (0001-01-01).
pub const FIRST_DAY: i32 = 1;
/// Last day with a four-digit year (9999-12-31).
pub const LAST_DAY: i32 = 3_652_059;
/// Day number of the Unix epoch, 1970-01-01.
pub const UNIX_EPOCH_DAY: i32 = 719_163;
/// Seconds in a day.
pub const SECS_PER_DAY: i64 = 86_400;
/// First Unix second whose New York date has a four-digit year
/// (0001-01-02T00:00:00Z).
pub const MIN_INSTANT: i64 = -62_135_510_400;
/// Last Unix second with a four-digit year (9999-12-31T23:59:59Z).
pub const MAX_INSTANT: i64 = 253_402_300_799;

/// A day with a four-digit year.
pub open spec fn in_day_range(d: int) -> bool {
    FIRST_DAY <= d <= LAST_DAY
}

/// Day of the week counted from Sunday (0 = Sunday, 6 = Saturday).
pub open spec fn weekday_from_sunday(d: int) -> int {
    d % 7
}

/// Saturday or Sunday.
pub open spec fn is_weekend(d: int) -> bool {
    weekday_from_sunday(d) == 0 || weekday_from_sunday(d) == 6
}

/// Unix timestamp of midnight UTC starting day `d`.
pub open spec fn day_start_secs(d: int) -> int {
    (d - UNIX_EPOCH_DAY) * SECS_PER_DAY
}

/// The day that `chrono` reads from `s` with the format `%Y-%m-%d`.
pub uninterp spec fn parse_iso_day(s: Seq<char>) -> Option<i32>;

/// The `%Y-%m-%d` text of day `d`: its proleptic Gregorian date, the year
/// zero-padded to four digits and the month and day to two.
pub open spec fn iso_day_text(d: i32) -> Seq<char> {
    day_text(d as int)
}

/// The day of a year, month and day of month, as `chrono` resolves it.
pub uninterp spec fn civil_day(y: i32, m: u32, dom: u32) -> Option<i32>;

/// The year, month and day of month of day `d` in the proleptic Gregorian
/// calendar.
pub open spec fn day_civil(d: i32) -> (i32, u32, u32) {
    (day_ymd(d as int).0 as i32, day_ymd(d as int).1 as u32, day_ymd(d as int).2 as u32)
}

/// Whether the NYSE trades on day `d`, as `nyse-holiday-cal` reports it
/// (`None` when the day is outside its holiday calendar).
pub uninterp spec fn nyse_business_day(d: i32) -> Option<bool>;

/// The America/New_York day, hour and minute at Unix time `secs`, as
/// `chrono` with `chrono-tz` reads them.
pub uninterp spec fn new_york_local(secs: i64) -> (i32, u32, u32);

/// The America/New_York day and minute of the day at Unix time `secs`, for
/// an instant with a four-digit year (`None` outside that range).
pub open spec fn new_york_clock(secs: i64) -> Option<(i32, u32)> {
    if MIN_INSTANT <= secs <= MAX_INSTANT {
        let (d, h, m) = new_york_local(secs);
        Some((d, (h * 60 + m) as u32))
    } else {
        None
    }
}

/// Calls `chrono::NaiveDate::parse_from_str(s, "%Y-%m-%d")` and takes the
/// day number. Claims that the result is the named reading of `s`, and, for a
/// text made of a four-digit year 0001..=9999, a dash, two month digits, a
/// dash and two day digits, that it reads the proleptic Gregorian date when
/// that date exists and nothing otherwise.
#[verifier::external_body]
pub(crate) fn parse_day(s: &str) -> (r: Option<i32>)
    ensures
        r == parse_iso_day(s@),
        forall|y: int, m: int, dd: int|
            1 <= y <= 9999 && 0 <= m <= 99 && 0 <= dd <= 99 && s@ == #[trigger] ymd_text(y, m, dd) ==> r == (
            if valid_ymd(y, m, dd) {
                Some(ymd_day(y, m, dd) as i32)
            } else {
                None
            }),
{
    chrono::NaiveDate::parse_from_str(s, "%Y-%m-%d").ok().map(|d| d.num_days_from_ce())
}

/// Calls `chrono::NaiveDate::format("%Y-%m-%d")` on day `d`. Claims what the
/// `%Y-%m-%d` format documents for four-digit years: the proleptic Gregorian
/// date with the year zero-padded to four digits and month and day to two
/// (ten characters, dashes at positions 4 and 7), which parses back to the
/// same day.
#[verifier::external_body]
pub(crate) fn format_day(d: i32) -> (r: String)
    requires
        in_day_range(d as int),
    ensures
        r@ == iso_day_text(d),
        r@.len() == 10,
        r@[4] == '-',
        r@[7] == '-',
        parse_iso_day(r@) == Some(d),
{
    chrono::NaiveDate::from_num_days_from_ce_opt(d).expect("day in range").format("%Y-%m-%d").to_string()
}

/// Calls `chrono::NaiveDate::from_ymd_opt`. Claims that the result is the
/// named day of `(y, m, dom)`, and for a four-digit year the proleptic
/// Gregorian day number of the date when it exists, nothing otherwise.
#[verifier::external_body]
pub(crate) fn day_of_civil(y: i32, m: u32, dom: u32) -> (r: Option<i32>)
    ensures
        r == civil_day(y, m, dom),
        1 <= y <= 9999 ==> r == (if valid_ymd(y as int, m as int, dom as int) {
            Some(ymd_day(y as int, m as int, dom as int) as i32)
        } else {
            None
        }),
{
    chrono::NaiveDate::from_ymd_opt(y, m, dom).map(|d| d.num_days_from_ce())
}

/// Calls `chrono::NaiveDate::{year, month, day}` for day `d`. Claims that the
/// triple is the proleptic Gregorian date of `d`: a four-digit year, a month
/// in 1..=12, a day of the month in 1..=31, resolving back to `d`.
#[verifier::external_body]
pub(crate) fn civil_of_day(d: i32) -> (r: (i32, u32, u32))
    requires
        in_day_range(d as int),
    ensures
        r == day_civil(d),
        1 <= r.0 <= 9999,
        1 <= r.1 <= 12,
        1 <= r.2 <= 31,
        civil_day(r.0, r.1, r.2) == Some(d),
{
    let nd = chrono::NaiveDate::from_num_days_from_ce_opt(d).expect("day in range");
    (nd.year(), nd.month(), nd.day())
}

/// Calls `nyse_holiday_cal::HolidayCal::is_busday` for day `d`. Claims what
/// the crate documents: every weekend is a definite non-business day.
#[verifier::external_body]
pub(crate) fn nyse_busday(d: i32) -> (r: Option<bool>)
    requires
        in_day_range(d as int),
    ensures
        r == nyse_business_day(d),
        is_weekend(d as int) ==> r == Some(false),
{
    chrono::NaiveDate::from_num_days_from_ce_opt(d).expect("day in range").is_busday().ok()
}

/// Calls `chrono::DateTime::from_timestamp` and converts to
/// `chrono_tz::America::New_York`, reading the local day, hour and minute.
/// Claims that the result is the named reading of `secs`, that the hour and
/// minute are a clock's, and that an instant with a four-digit year (UTC
/// 0001-01-02 to 9999-12-31) falls on a New York day with one too.
#[verifier::external_body]
pub(crate) fn new_york_local_time(secs: i64) -> (r: (i32, u32, u32))
    requires
        MIN_INSTANT <= secs <= MAX_INSTANT,
    ensures
        r == new_york_local(secs),
        in_day_range(r.0 as int),
        r.1 < 24,
        r.2 < 60,
{
    let et = chrono::DateTime::from_timestamp(secs, 0)
        .expect("instant in range")
        .with_timezone(&chrono_tz::America::New_York);
    (et.date_naive().num_days_from_ce(), et.hour(), et.minute())
}

/// The New York day and minute of the day at Unix time `secs`, or `None`
/// for an instant without a four-digit year.
pub fn new_york_day_minute(secs: i64) -> (r: Option<(i32, u32)>)
    ensures
        r == new_york_clock(secs),
        r matches Some(p) ==> p.1 < 1440 && in_day_range(p.0 as int),
        r is None <==> !(MIN_INSTANT <= secs <= MAX_INSTANT),
{
    if secs < MIN_INSTANT || secs > MAX_INSTANT {
        return None;
    }
    let (day, hour, minute) = new_york_local_time(secs);
    Some((day, hour * 60 + minute))
}

/// The UTC day `chrono` gives for Unix time `secs` (`None` outside its range).
pub uninterp spec fn utc_calendar_day(secs: i64) -> Option<i32>;

/// Calls `chrono::Utc.timestamp_opt(secs, 0).single()` and takes the day of
/// its UTC date. Claims that the result is the named day of `secs`, and that
/// for an instant with a four-digit year it is the floor of `secs / 86400`
/// counted from the epoch day.
#[verifier::external_body]
pub(crate) fn utc_day_of(secs: i64) -> (r: Option<i32>)
    ensures
        r == utc_calendar_day(secs),
        r is None ==> !(day_start_secs(FIRST_DAY as int) <= secs <= MAX_INSTANT),
        r matches Some(d) ==> (day_start_secs(FIRST_DAY as int) <= secs <= MAX_INSTANT ==> d == secs as int
            / SECS_PER_DAY as int + UNIX_EPOCH_DAY),
{
    chrono::Utc.timestamp_opt(secs, 0).single().map(|t| t.date_naive().num_days_from_ce())
}

/// Day of the week of `d` counted from Sunday.
pub fn weekday_of(d: i32) -> (r: u32)
    requires
        d >= 1,
    ensures
        r == weekday_from_sunday(d as int),
        r < 7,
{
    (d % 7) as u32
}

/// Unix timestamp of midnight UTC starting day `d`.
pub fn day_start_unix(d: i32) -> (r: i64)
    ensures
        r == day_start_secs(d as int),
{
    (d as i64 - UNIX_EPOCH_DAY as i64) * SECS_PER_DAY
}

/// Day order is the order of the days' `YYYY-MM-DD` texts.
pub proof fn law_iso_text_order(a: i32, b: i32)
    requires
        in_day_range(a as int),
        in_day_range(b as int),
    ensures
        lex_le(iso_day_text(a), iso_day_text(b)) <==> a <= b,
{
    law_day_text_order(a as int, b as int);
}

} // verus!
