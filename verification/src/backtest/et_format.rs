//! Eastern-time text of instants for logs and the dashboard
//! (`YYYY-MM-DDTHH:MM`, New York time).

use vstd::prelude::*;
use vstd::string::StringSliceAdditionalSpecFns;
use vstd::utf8::{decode_utf8, encode_utf8_decode_utf8};
use crate::dates::{format_day, iso_day_text, new_york_day_minute};
use crate::live::nyse_session::{et_day, et_minute, valid_instant};
use crate::text::{concat, digit_char, owned};

verus! {

/// The text `chrono` gives for an RFC 3339 instant shown in New York time
/// with the format `%Y-%m-%dT%H:%M` (`None` when `s` is not RFC 3339).
pub uninterp spec fn rfc3339_et_text(s: Seq<char>) -> Option<Seq<char>>;

/// Calls `chrono::DateTime::parse_from_rfc3339`, converts to
/// `chrono_tz::America::New_York` and formats `%Y-%m-%dT%H:%M`. Claims only
/// that the result is the named text of `s`.
#[verifier::external_body]
fn rfc3339_to_et_text(s: &str) -> (r: Option<String>)
    ensures
        match r {
            Some(t) => rfc3339_et_text(s@) == Some(t@),
            None => rfc3339_et_text(s@).is_none(),
        },
{
    chrono::DateTime::parse_from_rfc3339(s).ok().map(
        |dt| dt.with_timezone(&chrono_tz::America::New_York).format("%Y-%m-%dT%H:%M").to_string(),
    )
}

/// Two decimal digits of `n` (below 100).
pub open spec fn two_digits(n: int) -> Seq<char> {
    seq![digit_char(n / 10), digit_char(n % 10)]
}

/// `YYYY-MM-DDTHH:MM` of the New York day and minute of `now`.
pub open spec fn et_text(now: i64) -> Seq<char> {
    iso_day_text(et_day(now)) + "T"@ + two_digits(et_minute(now) as int / 60) + ":"@ + two_digits(
        et_minute(now) as int % 60,
    )
}

/// The text of a number below 100 as two digits.
fn two_digit_text(n: u32) -> (r: String)
    requires
        n < 100,
    ensures
        r@ == two_digits(n as int),
{
    let mut s = String::new();
    let hi = ((n / 10) as u8 + 48) as char;
    let lo = ((n % 10) as u8 + 48) as char;
    let a = char_text(hi);
    let b = char_text(lo);
    s.append(a.as_str());
    s.append(b.as_str());
    proof {
        assert(s@ =~= two_digits(n as int));
    }
    s
}

/// A one-character text of an ASCII digit.
fn char_text(c: char) -> (r: String)
    requires
        '0' <= c <= '9',
    ensures
        r@ == seq![c],
{
    let t = if c == '0' { "0" } else if c == '1' { "1" } else if c == '2' { "2" } else if c == '3' {
        "3"
    } else if c == '4' { "4" } else if c == '5' { "5" } else if c == '6' { "6" } else if c == '7' {
        "7"
    } else if c == '8' { "8" } else { "9" };
    proof {
        reveal_strlit("0");
        reveal_strlit("1");
        reveal_strlit("2");
        reveal_strlit("3");
        reveal_strlit("4");
        reveal_strlit("5");
        reveal_strlit("6");
        reveal_strlit("7");
        reveal_strlit("8");
        reveal_strlit("9");
    }
    owned(t)
}

/// The first `min(16, byte length)` bytes of `s`, as text.
pub open spec fn head16(s: &str) -> Seq<char> {
    let n = if s.spec_bytes().len() < 16 { s.spec_bytes().len() as int } else { 16 };
    decode_utf8(s.spec_bytes().subrange(0, n))
}

/// Eastern-time text of instants.
pub struct EtFormat;

impl EtFormat {
    /// `YYYY-MM-DDTHH:MM` New York time of the Unix instant `now`.
    pub fn utc(now: i64) -> (r: String)
        requires
            valid_instant(now),
        ensures
            r@ == et_text(now),
    {
        let (day, min) = match new_york_day_minute(now) {
            Some(p) => p,
            None => (1, 0),
        };
        let mut s = format_day(day);
        s.append("T");
        let h = two_digit_text(min / 60);
        s.append(h.as_str());
        s.append(":");
        let m = two_digit_text(min % 60);
        s.append(m.as_str());
        s
    }

    /// New York `YYYY-MM-DDTHH:MM` of an RFC 3339 text; a text that does not
    /// parse is shown by its first 16 bytes (all of it when shorter), so byte
    /// 16 of a longer text must start a character.
    pub fn from_rfc3339(s: &str) -> (r: String)
        requires
            s.spec_bytes().len() <= 16 || vstd::utf8::is_char_boundary(s.spec_bytes(), 16),
        ensures
            r@ == (match rfc3339_et_text(s@) {
                Some(t) => t,
                None => head16(s),
            }),
    {
        match rfc3339_to_et_text(s) {
            Some(t) => t,
            None => {
                proof {
                    encode_utf8_decode_utf8(s@);
                }
                if s.as_bytes().len() <= 16 {
                    proof {
                        assert(s.spec_bytes().subrange(0, s.spec_bytes().len() as int) =~= s.spec_bytes());
                    }
                    owned(s)
                } else {
                    let (h, _) = s.split_at(16);
                    proof {
                        encode_utf8_decode_utf8(h@);
                        assert(h.spec_bytes() =~= s.spec_bytes().subrange(0, 16));
                    }
                    owned(h)
                }
            },
        }
    }
}

} // verus!
