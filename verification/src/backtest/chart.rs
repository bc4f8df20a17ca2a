//! Chart marker construction: entry markers, marker colors, bar snapping and
//! trade lengths in days.

use vstd::prelude::*;
use crate::config::bar_interval::{bucket_secs_i64, BAR_INTERVAL_MINUTES};
use crate::text::{owned, seq_starts_with, starts_with, str_eq};
use crate::types::{signal_short_name, Signal};
use super::state::Marker;
use vstd::string::StringSliceAdditionalSpecFns;
use vstd::utf8::{decode_utf8, encode_utf8_decode_utf8};
use crate::dates::{parse_day, parse_iso_day, utc_calendar_day, utc_day_of};

verus! {

/// Marker color of VannaFlip entries.
pub const COLOR_VF: &'static str = "#f57c00";
/// Marker color of WallBounce entries.
pub const COLOR_WB: &'static str = "#4caf50";
/// Marker color of a winning exit.
pub const COLOR_WIN: &'static str = "#26a69a";
/// Marker color of a losing exit.
pub const COLOR_LOSS: &'static str = "#ef5350";
/// Marker color of the flat signal.
pub const COLOR_FLAT: &'static str = "#888888";

/// Marker color of each signal.
pub open spec fn signal_color(signal: Signal) -> Seq<char> {
    match signal {
        Signal::LongVannaFlip => COLOR_VF@,
        Signal::LongWallBounce => COLOR_WB@,
        Signal::Flat => COLOR_FLAT@,
    }
}

/// Text prefix of an entry marker for `signal`.
pub fn signal_marker_prefix(signal: Signal) -> (r: &'static str)
    ensures
        r@ == signal_short_name(signal),
{
    signal.short_name()
}

/// Marker color for `signal`.
pub fn signal_marker_color(signal: Signal) -> (r: &'static str)
    ensures
        r@ == signal_color(signal),
{
    match signal {
        Signal::LongVannaFlip => COLOR_VF,
        Signal::LongWallBounce => COLOR_WB,
        Signal::Flat => COLOR_FLAT,
    }
}

/// An entry marker: an up arrow whose text starts with a long signal's tag.
pub open spec fn is_entry_marker_spec(shape: Seq<char>, text: Seq<char>) -> bool {
    shape == "arrowUp"@
        && (seq_starts_with(text, signal_short_name(Signal::LongVannaFlip))
            || seq_starts_with(text, signal_short_name(Signal::LongWallBounce)))
}

/// Whether `m` marks an entry.
pub fn is_entry_marker(m: &Marker) -> (r: bool)
    ensures
        r == is_entry_marker_spec(m.shape@, m.text@),
{
    str_eq(m.shape.as_str(), "arrowUp")
        && (starts_with(m.text.as_str(), Signal::LongVannaFlip.short_name())
            || starts_with(m.text.as_str(), Signal::LongWallBounce.short_name()))
}

/// Start of the strategy bar containing Unix time `time` (Rust remainder
/// semantics: times before the epoch snap toward zero).
pub open spec fn snapped(time: int) -> int {
    let bucket = BAR_INTERVAL_MINUTES as int * 60;
    if time >= 0 { time - time % bucket } else { time + (-time) % bucket }
}

/// Snap a Unix time down to the start of its strategy bar.
pub fn snap_to_bar(time: i64) -> (r: i64)
    ensures
        r == snapped(time as int),
{
    let bucket = bucket_secs_i64(BAR_INTERVAL_MINUTES);
    time - (time % bucket)
}

impl Marker {
    /// Entry marker for `signal` at bar time `time`.
    pub fn entry(time: i64, signal: Signal) -> (m: Marker)
        ensures
            m.time == time,
            m.position@ == "belowBar"@,
            m.color@ == signal_color(signal),
            m.shape@ == "arrowUp"@,
            m.text@ == signal_short_name(signal),
            m.size == Some(2u32),
    {
        Marker {
            time,
            position: owned("belowBar"),
            color: owned(signal_marker_color(signal)),
            shape: owned("arrowUp"),
            text: owned(signal_marker_prefix(signal)),
            size: Some(2),
        }
    }

    /// Exit marker at bar time `time` of a trade: green when it did not lose
    /// (`won`: its net P&L is not negative), red otherwise, labelled with its
    /// return text.
    pub fn exit(time: i64, won: bool, return_text: String) -> (m: Marker)
        ensures
            m.time == time,
            m.position@ == "aboveBar"@,
            m.color@ == (if won { COLOR_WIN@ } else { COLOR_LOSS@ }),
            m.shape@ == "arrowDown"@,
            m.text@ == return_text@,
            m.size == Some(2u32),
    {
        let color = if won { COLOR_WIN } else { COLOR_LOSS };
        Marker {
            time,
            position: owned("aboveBar"),
            color: owned(color),
            shape: owned("arrowDown"),
            text: return_text,
            size: Some(2),
        }
    }
}

/// A marker drawn as a down arrow (as every exit marker is) is never taken
/// for an entry, whatever its text.
pub proof fn law_exit_marker_not_entry(m: Marker)
    requires
        m.shape@ == "arrowDown"@,
    ensures
        !is_entry_marker_spec(m.shape@, m.text@),
{
    reveal_strlit("arrowDown");
    reveal_strlit("arrowUp");
    assert("arrowDown"@.len() != "arrowUp"@.len());
}

/// Entry markers of long signals are recognised as entry markers.
pub proof fn law_entry_marker_recognised(signal: Signal, m: Marker)
    requires
        signal != Signal::Flat,
        m.shape@ == "arrowUp"@,
        m.text@ == signal_short_name(signal),
    ensures
        is_entry_marker_spec(m.shape@, m.text@),
{
    assert(m.text@.subrange(0, m.text@.len() as int) =~= m.text@);
}

/// The first ten bytes of `s` as text, when it has them and byte 10 starts
/// a character (what `str::get(..10)` gives).
pub open spec fn first_ten(s: &str) -> Option<Seq<char>> {
    if s.spec_bytes().len() >= 10 && vstd::utf8::is_char_boundary(s.spec_bytes(), 10) {
        Some(decode_utf8(s.spec_bytes().subrange(0, 10)))
    } else {
        None
    }
}

/// Calendar days from the date that starts `entry` to the one that starts
/// `exit` (their first ten bytes read as `YYYY-MM-DD`); 0 when either does
/// not read as a date.
pub open spec fn trade_days_spec(entry: &str, exit: &str) -> int {
    let pe = match first_ten(entry) {
        Some(t) => parse_iso_day(t),
        None => None,
    };
    let px = match first_ten(exit) {
        Some(t) => parse_iso_day(t),
        None => None,
    };
    match (pe, px) {
        (Some(e), Some(x)) => x - e,
        _ => 0,
    }
}

/// The day read from the first ten bytes of `s`.
fn leading_date(s: &str) -> (r: Option<i32>)
    ensures
        r == match first_ten(s) {
            Some(t) => parse_iso_day(t),
            None => None,
        },
{
    let b = s.as_bytes();
    if b.len() < 10 || !s.is_char_boundary(10) {
        return None;
    }
    let (h, _) = s.split_at(10);
    proof {
        encode_utf8_decode_utf8(h@);
    }
    parse_day(h)
}

/// Calendar days a trade lasted, from its entry and exit times (texts that
/// start with `YYYY-MM-DD`); 0 when either does not start with a date.
pub fn trade_days(entry: &str, exit: &str) -> (r: i64)
    ensures
        r == trade_days_spec(entry, exit),
{
    match (leading_date(entry), leading_date(exit)) {
        (Some(e), Some(x)) => (x as i64) - (e as i64),
        _ => 0,
    }
}

/// UTC calendar days between two Unix times; 0 when either is out of range.
pub fn scan_days(entry_sec: i64, exit_sec: i64) -> (r: i64)
    ensures
        r == match (utc_calendar_day(entry_sec), utc_calendar_day(exit_sec)) {
            (Some(e), Some(x)) => x - e,
            _ => 0,
        },
{
    match (utc_day_of(entry_sec), utc_day_of(exit_sec)) {
        (Some(e), Some(x)) => (x as i64) - (e as i64),
        _ => 0,
    }
}

} // verus!
