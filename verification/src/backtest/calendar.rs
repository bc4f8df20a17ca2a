//! NYSE trading-day calendar for the backtest, with the dates on which the
//! options data source is known to be broken.

use vstd::prelude::*;
use crate::config::tickers::Ticker;
use crate::dates::{
    format_day, in_day_range, is_weekend, iso_day_text, nyse_business_day, nyse_busday, parse_day,
    parse_iso_day, weekday_of, FIRST_DAY, LAST_DAY,
};
use crate::text::str_eq;

verus! {

/// Dates on which the options data source returns corrupt or missing data (all tickers).
pub const BROKEN_DATES: [&'static str; 2] = ["2022-01-03", "2022-01-04"];

/// Per-ticker dates on which the options data source persistently fails.
pub const TICKER_BAD_DATES: [(Ticker, &'static str); 3] = [
    (Ticker::COST, "2022-11-03"),
    (Ticker::COST, "2023-11-01"),
    (Ticker::MCD, "2023-11-01"),
];

/// `(ticker, date)` is listed in [`TICKER_BAD_DATES`].
pub open spec fn is_listed_bad(ticker: Ticker, date: Seq<char>) -> bool {
    exists|i: int| 0 <= i < 3 && TICKER_BAD_DATES[i].0 == ticker && TICKER_BAD_DATES[i].1@ == date
}

/// Whether options data for `ticker` on `date` is known to be unusable.
pub fn is_ticker_bad_date(ticker: Ticker, date: &str) -> (r: bool)
    ensures
        r == is_listed_bad(ticker, date@),
{
    let mut i: usize = 0;
    while i < 3
        invariant
            i <= 3,
            forall|j: int| 0 <= j < i ==> !(TICKER_BAD_DATES[j].0 == ticker && TICKER_BAD_DATES[j].1@ == date@),
        decreases 3 - i,
    {
        let (t, d) = TICKER_BAD_DATES[i];
        if t == ticker && str_eq(d, date) {
            return true;
        }
        i = i + 1;
    }
    false
}

/// The date text is one of [`BROKEN_DATES`].
pub open spec fn is_broken_date(text: Seq<char>) -> bool {
    BROKEN_DATES[0]@ == text || BROKEN_DATES[1]@ == text
}

/// The NYSE trades on day `d`; outside the holiday calendar every weekday counts.
pub open spec fn is_business_day(d: int) -> bool {
    match nyse_business_day(d as i32) {
        Some(b) => b,
        None => !is_weekend(d),
    }
}

/// Day `d` is a usable backtest trading day.
pub open spec fn is_trading_day(d: int) -> bool {
    is_business_day(d) && !is_broken_date(iso_day_text(d as i32))
}

/// Texts of the trading days in `[lo, hi)`, in order.
pub open spec fn trading_days_upto(lo: int, hi: int) -> Seq<Seq<char>>
    decreases hi - lo,
{
    if hi <= lo {
        seq![]
    } else {
        let prev = trading_days_upto(lo, hi - 1);
        if is_trading_day(hi - 1) {
            prev.push(iso_day_text((hi - 1) as i32))
        } else {
            prev
        }
    }
}

/// The characters of each string.
pub open spec fn texts(v: Seq<String>) -> Seq<Seq<char>> {
    v.map_values(|s: String| s@)
}

/// `s` is the text of a weekday in `[lo, hi)`.
pub open spec fn is_weekday_text_in(s: Seq<char>, lo: int, hi: int) -> bool {
    exists|d: int| lo <= d < hi && !is_weekend(d) && s == iso_day_text(d as i32)
}

proof fn lemma_weekday_text_widen(s: Seq<char>, lo: int, hi: int, hi2: int)
    requires
        is_weekday_text_in(s, lo, hi),
        hi <= hi2,
    ensures
        is_weekday_text_in(s, lo, hi2),
{
    let d = choose|d: int| lo <= d < hi && !is_weekend(d) && s == iso_day_text(d as i32);
    assert(lo <= d < hi2 && !is_weekend(d) && s == iso_day_text(d as i32));
}

fn is_broken(s: &str) -> (r: bool)
    ensures
        r == is_broken_date(s@),
{
    str_eq(BROKEN_DATES[0], s) || str_eq(BROKEN_DATES[1], s)
}

/// Trading days from day `start` to day `end` inclusive, as `YYYY-MM-DD` texts.
pub fn trading_days_between(start: i32, end: i32) -> (r: Vec<String>)
    requires
        in_day_range(start as int),
        in_day_range(end as int),
    ensures
        start > end ==> r@.len() == 0,
        texts(r@) == trading_days_upto(start as int, end + 1),
        forall|i: int| 0 <= i < r@.len() ==> is_weekday_text_in(#[trigger] r@[i]@, start as int, end + 1),
{
    let mut days: Vec<String> = Vec::new();
    let mut current = start;
    while current <= end
        invariant
            in_day_range(start as int),
            in_day_range(end as int),
            start <= current,
            current <= end + 1 || (current == start && days@.len() == 0),
            texts(days@) == trading_days_upto(start as int, current as int),
            forall|i: int|
                0 <= i < days@.len() ==> is_weekday_text_in(#[trigger] days@[i]@, start as int, current as int),
        decreases end + 1 - current,
    {
        let s = format_day(current);
        let bus = match nyse_busday(current) {
            Some(b) => b,
            None => {
                let dow = weekday_of(current);
                dow != 0 && dow != 6
            },
        };
        let ghost before = days@;
        if bus && !is_broken(s.as_str()) {
            days.push(s);
            assert(texts(days@) =~= texts(before).push(iso_day_text(current)));
            assert(!is_weekend(current as int));
            assert forall|i: int| 0 <= i < days@.len() implies
                is_weekday_text_in(#[trigger] days@[i]@, start as int, current + 1) by {
                if i < before.len() {
                    assert(days@[i] == before[i]);
                    lemma_weekday_text_widen(days@[i]@, start as int, current as int, current + 1);
                } else {
                    assert(days@[i]@ == iso_day_text(current));
                    assert(start <= current < current + 1 && !is_weekend(current as int));
                }
            }
        }
        proof {
            if !(bus && !is_broken_date(s@)) {
                assert forall|i: int| 0 <= i < days@.len() implies
                    is_weekday_text_in(#[trigger] days@[i]@, start as int, current + 1) by {
                    lemma_weekday_text_widen(days@[i]@, start as int, current as int, current + 1);
                }
            }
        }
        current = current + 1;
    }
    if start > end {
        assert(trading_days_upto(start as int, end + 1) == Seq::<Seq<char>>::empty());
    }
    assert forall|i: int| 0 <= i < days@.len() implies
        is_weekday_text_in(#[trigger] days@[i]@, start as int, end + 1) by {
        lemma_weekday_text_widen(days@[i]@, start as int, current as int, end + 1);
    }
    days
}

/// Trading days between two `YYYY-MM-DD` dates inclusive: NYSE business days
/// (every weekday outside the holiday calendar) that are not broken dates.
pub fn get_trading_days(start_date: &str, end_date: &str) -> (r: Vec<String>)
    requires
        parse_iso_day(start_date@) matches Some(s) && in_day_range(s as int),
        parse_iso_day(end_date@) matches Some(e) && in_day_range(e as int),
    ensures
        texts(r@) == trading_days_upto(parse_iso_day(start_date@)->0 as int, parse_iso_day(end_date@)->0 + 1),
{
    let start = parse_day(start_date).unwrap();
    let end = parse_day(end_date).unwrap();
    trading_days_between(start, end)
}

/// [`get_trading_days`] for arbitrary input: `None` when either date does not
/// parse or lies outside years 0001..=9999.
pub fn try_get_trading_days(start_date: &str, end_date: &str) -> (r: Option<Vec<String>>)
    ensures
        match (parse_iso_day(start_date@), parse_iso_day(end_date@)) {
            (Some(s), Some(e)) => if in_day_range(s as int) && in_day_range(e as int) {
                r matches Some(v) && texts(v@) == trading_days_upto(s as int, e + 1)
            } else {
                r is None
            },
            _ => r is None,
        },
{
    match (parse_day(start_date), parse_day(end_date)) {
        (Some(s), Some(e)) => {
            if FIRST_DAY <= s && s <= LAST_DAY && FIRST_DAY <= e && e <= LAST_DAY {
                Some(get_trading_days(start_date, end_date))
            } else {
                None
            }
        },
        _ => None,
    }
}

/// Every listed day is a trading day of the range, in the range.
pub proof fn law_trading_days_within(lo: int, hi: int, i: int)
    requires
        0 <= i < trading_days_upto(lo, hi).len(),
    ensures
        exists|d: int| lo <= d < hi && is_trading_day(d) && trading_days_upto(lo, hi)[i] == iso_day_text(d as i32),
    decreases hi - lo,
{
    if hi > lo {
        let prev = trading_days_upto(lo, hi - 1);
        if i < prev.len() {
            law_trading_days_within(lo, hi - 1, i);
            let d = choose|d: int| lo <= d < hi - 1 && is_trading_day(d) && prev[i] == iso_day_text(d as i32);
            assert(lo <= d < hi && is_trading_day(d) && trading_days_upto(lo, hi)[i] == iso_day_text(d as i32));
        } else {
            let d = hi - 1;
            assert(lo <= d < hi && is_trading_day(d) && trading_days_upto(lo, hi)[i] == iso_day_text(d as i32));
        }
    }
}

} // verus!
