//! Period definitions of the parameter-robustness report.

use vstd::prelude::*;
use vstd::string::StringSliceAdditionalSpecFns;
use vstd::utf8::{decode_utf8, encode_utf8_decode_utf8, is_char_boundary};
use crate::config::DEFAULT_START;
use crate::text::{concat, owned};

verus! {

/// The first four bytes of `s`, as text.
pub open spec fn head4(s: &str) -> Seq<char> {
    decode_utf8(s.spec_bytes().subrange(0, 4))
}

/// Text whose first four bytes end on a character boundary.
pub open spec fn has_head4(s: &str) -> bool {
    s.spec_bytes().len() >= 4 && is_char_boundary(s.spec_bytes(), 4)
}

/// Label of a period with its year span, e.g. `"H1 (2018–2022)"`.
pub open spec fn period_display_spec(label: Seq<char>, start: Seq<char>, end: Seq<char>) -> Seq<char> {
    label + " ("@ + start + "–"@ + end + ")"@
}

/// Label of a period with the first four bytes (the years) of its start and
/// end dates.
pub fn period_display(label: &str, start: &str, end: &str) -> (r: String)
    requires
        has_head4(start),
        has_head4(end),
    ensures
        r@ == period_display_spec(label@, head4(start), head4(end)),
{
    let mut s = concat(label, " (");
    let (a, _) = start.split_at(4);
    proof {
        encode_utf8_decode_utf8(a@);
        assert(a.spec_bytes() =~= start.spec_bytes().subrange(0, 4));
    }
    s.append(a);
    s.append("–");
    let (b, _) = end.split_at(4);
    proof {
        encode_utf8_decode_utf8(b@);
        assert(b.spec_bytes() =~= end.spec_bytes().subrange(0, 4));
    }
    s.append(b);
    s.append(")");
    s
}

/// A report period: label, start date, end date.
pub type Period = (String, String, String);

/// The characters of each period's three texts.
pub open spec fn period_texts(v: Seq<Period>) -> Seq<(Seq<char>, Seq<char>, Seq<char>)> {
    v.map_values(|p: Period| (p.0@, p.1@, p.2@))
}

/// The report's periods: the full range, two halves split at 2022, and four
/// quarters split at 2020, 2022 and 2024.
pub open spec fn periods_spec(end: Seq<char>) -> Seq<(Seq<char>, Seq<char>, Seq<char>)> {
    seq![
        ("FULL"@, DEFAULT_START@, end),
        ("H1"@, DEFAULT_START@, "2022-01-01"@),
        ("H2"@, "2022-01-01"@, end),
        ("P1"@, DEFAULT_START@, "2020-01-01"@),
        ("P2"@, "2020-01-01"@, "2022-01-01"@),
        ("P3"@, "2022-01-01"@, "2024-01-01"@),
        ("P4"@, "2024-01-01"@, end),
    ]
}

fn period(l: &str, s: &str, e: &str) -> (p: Period)
    ensures
        p.0@ == l@,
        p.1@ == s@,
        p.2@ == e@,
{
    (owned(l), owned(s), owned(e))
}

/// The report's periods ending at `end_date`.
pub fn build_periods(end_date: &str) -> (r: Vec<Period>)
    ensures
        period_texts(r@) == periods_spec(end_date@),
{
    let mut v: Vec<Period> = Vec::new();
    v.push(period("FULL", DEFAULT_START, end_date));
    v.push(period("H1", DEFAULT_START, "2022-01-01"));
    v.push(period("H2", "2022-01-01", end_date));
    v.push(period("P1", DEFAULT_START, "2020-01-01"));
    v.push(period("P2", "2020-01-01", "2022-01-01"));
    v.push(period("P3", "2022-01-01", "2024-01-01"));
    v.push(period("P4", "2024-01-01", end_date));
    assert(period_texts(v@) =~= periods_spec(end_date@));
    v
}

} // verus!
