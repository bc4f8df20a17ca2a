//! The unified per-ticker caches: file layout, the sets of processed days and
//! months kept in their footers, and the removal of one month from them.
//!
//! Reading and writing the parquet files is I/O and happens around these
//! functions; here the cache contents are plain values.

use vstd::prelude::*;
use crate::backtest::state::HasTime;
use crate::config::tickers::Ticker;
use crate::backtest::calendar::texts;
use crate::backtest::setup::{contains_text, has_text};
use crate::data::store::Store;
use crate::data::cache::unified_dir;
use crate::data::hist::VERSION_GEX;
use crate::data::paths::{data_dir_spec, join, path_join};
use crate::dates::{
    civil_day, civil_of_day, day_civil, day_of_civil, day_start_secs, day_start_unix,
    in_day_range, parse_day, parse_iso_day,
};
use crate::text::{concat, decimal, decimal_string, owned, seq_starts_with, starts_with, str_eq};

verus! {

/// `data/unified/{ticker}`.
pub open spec fn unified_ticker_dir_spec(ticker: Seq<char>) -> Seq<char> {
    path_join(path_join(data_dir_spec(), "unified"@), ticker)
}

/// Directory of one ticker's unified cache files.
fn unified_ticker_dir(ticker: &str) -> (r: String)
    ensures
        r@ == unified_ticker_dir_spec(ticker@),
{
    join(unified_dir().as_str(), ticker)
}

/// The 1-minute bar cache of a ticker, `data/unified/{ticker}/bars_1m.parquet`.
pub fn bars_parquet_path(ticker: &str) -> (r: String)
    ensures
        r@ == path_join(unified_ticker_dir_spec(ticker@), "bars_1m.parquet"@),
{
    join(unified_ticker_dir(ticker).as_str(), "bars_1m.parquet")
}

/// The GEX cache of a ticker at a format version,
/// `data/unified/{ticker}/gex_15m_v{version}.parquet`.
pub fn gex_parquet_path_versioned(ticker: &str, version: u32) -> (r: String)
    ensures
        r@ == path_join(
            unified_ticker_dir_spec(ticker@),
            "gex_15m_v"@ + decimal(version as nat) + ".parquet"@,
        ),
{
    let v = decimal_string(version as u64);
    let mut name = concat("gex_15m_v", v.as_str());
    name.append(".parquet");
    join(unified_ticker_dir(ticker).as_str(), name.as_str())
}

/// The GEX cache of a ticker at the current format version.
pub fn gex_parquet_path(ticker: &str) -> (r: String)
    ensures
        r@ == path_join(
            unified_ticker_dir_spec(ticker@),
            "gex_15m_v"@ + decimal(VERSION_GEX as nat) + ".parquet"@,
        ),
{
    gex_parquet_path_versioned(ticker, VERSION_GEX)
}

// ─── Month ranges ───────────────────────────────────────────────────────────

/// Unix-second range `[start, end)` of the month named `YYYY-MM`: from
/// midnight UTC of its first day to midnight UTC of the next month's first
/// day (`None` when `{month}-01` does not read as a four-digit-year date).
pub open spec fn month_range(month: Seq<char>) -> Option<(i64, i64)> {
    match parse_iso_day(month + "-01"@) {
        Some(d) => if in_day_range(d as int) {
            let c = day_civil(d);
            let next = if c.1 == 12 {
                civil_day((c.0 + 1) as i32, 1, 1)
            } else {
                civil_day(c.0, (c.1 + 1) as u32, 1)
            };
            match next {
                Some(e) => Some((day_start_secs(d as int) as i64, day_start_secs(e as int) as i64)),
                None => None,
            }
        } else {
            None
        },
        None => None,
    }
}

/// The Unix-second range of a `YYYY-MM` month, or `None` when it does not
/// read as a month with a four-digit year.
pub fn month_epoch_range(month: &str) -> (r: Option<(i64, i64)>)
    ensures
        r == month_range(month@),
{
    let text = concat(month, "-01");
    let d = match parse_day(text.as_str()) {
        Some(d) => d,
        None => return None,
    };
    if d < crate::dates::FIRST_DAY || d > crate::dates::LAST_DAY {
        return None;
    }
    let (y, m, _) = civil_of_day(d);
    let next = if m == 12 {
        day_of_civil(y + 1, 1, 1)
    } else {
        day_of_civil(y, m + 1, 1)
    };
    match next {
        Some(e) => Some((day_start_unix(d), day_start_unix(e))),
        None => None,
    }
}

// ─── Removing a month ───────────────────────────────────────────────────────

/// The first `n` texts of `s` that do not start with `prefix`, in order.
pub open spec fn without_prefixed(s: Seq<String>, prefix: Seq<char>, n: int) -> Seq<String>
    decreases n,
{
    if n <= 0 {
        Seq::empty()
    } else if seq_starts_with(s[n - 1]@, prefix) {
        without_prefixed(s, prefix, n - 1)
    } else {
        without_prefixed(s, prefix, n - 1).push(s[n - 1])
    }
}

/// The first `n` texts of `s` other than `x`, in order.
pub open spec fn without_text(s: Seq<String>, x: Seq<char>, n: int) -> Seq<String>
    decreases n,
{
    if n <= 0 {
        Seq::empty()
    } else if s[n - 1]@ == x {
        without_text(s, x, n - 1)
    } else {
        without_text(s, x, n - 1).push(s[n - 1])
    }
}

/// The first `n` items of `s` stamped outside `[start, end)`, in order.
pub open spec fn outside_span<T: HasTime>(s: Seq<T>, start: i64, end: i64, n: int) -> Seq<T>
    decreases n,
{
    if n <= 0 {
        Seq::empty()
    } else if s[n - 1].time_of() < start || s[n - 1].time_of() >= end {
        outside_span(s, start, end, n - 1).push(s[n - 1])
    } else {
        outside_span(s, start, end, n - 1)
    }
}

/// Drop the texts starting with `prefix`.
fn drop_prefixed(v: Vec<String>, prefix: &str) -> (r: Vec<String>)
    ensures
        r@ == without_prefixed(v@, prefix@, v@.len() as int),
{
    let mut out: Vec<String> = Vec::new();
    let mut i: usize = 0;
    while i < v.len()
        invariant
            i <= v@.len(),
            out@ == without_prefixed(v@, prefix@, i as int),
        decreases v.len() - i,
    {
        if !starts_with(v[i].as_str(), prefix) {
            out.push(v[i].clone());
        }
        i = i + 1;
    }
    out
}

/// Drop the texts equal to `x`.
fn drop_text(v: Vec<String>, x: &str) -> (r: Vec<String>)
    ensures
        r@ == without_text(v@, x@, v@.len() as int),
{
    let mut out: Vec<String> = Vec::new();
    let mut i: usize = 0;
    while i < v.len()
        invariant
            i <= v@.len(),
            out@ == without_text(v@, x@, i as int),
        decreases v.len() - i,
    {
        if !str_eq(v[i].as_str(), x) {
            out.push(v[i].clone());
        }
        i = i + 1;
    }
    out
}

/// Keep the items stamped outside `[start, end)`.
fn drop_span<T: HasTime>(v: Vec<T>, start: i64, end: i64) -> (r: Vec<T>)
    ensures
        r@ == outside_span(v@, start, end, v@.len() as int),
{
    let mut rest = v;
    let ghost all = rest@;
    let mut kept: Vec<T> = Vec::new();
    let mut stack: Vec<T> = Vec::new();
    while rest.len() > 0
        invariant
            rest@ == all.subrange(0, rest@.len() as int),
            rest@.len() <= all.len(),
            stack@.len() == all.len() - rest@.len(),
            forall|k: int| 0 <= k < stack@.len() ==> #[trigger] stack@[k] == all[all.len() - 1 - k],
        decreases rest@.len(),
    {
        let x = rest.pop().unwrap();
        stack.push(x);
        proof {
            assert forall|k: int| 0 <= k < stack@.len() implies #[trigger] stack@[k] == all[all.len()
                - 1 - k] by {}
        }
    }
    while stack.len() > 0
        invariant
            stack@.len() <= all.len(),
            forall|k: int| 0 <= k < stack@.len() ==> #[trigger] stack@[k] == all[all.len() - 1 - k],
            kept@ == outside_span(all, start, end, all.len() - stack@.len()),
        decreases stack@.len(),
    {
        let x = stack.pop().unwrap();
        let t = x.time();
        if t < start || t >= end {
            kept.push(x);
        }
    }
    kept
}

/// Remove one month from a ticker's bar cache: the processed dates starting
/// with `month` and the bars stamped within the month. Returns whether any
/// bar was removed (only then does the cache file need rewriting). The month
/// must read as a four-digit-year `YYYY-MM`.
pub fn remove_month_bars<T: HasTime>(dates: &mut Vec<String>, bars: &mut Vec<T>, month: &str) -> (changed: bool)
    requires
        month_range(month@) is Some,
    ensures
        ({
            let (start, end) = month_range(month@)->0;
            &&& final(dates)@ == without_prefixed(old(dates)@, month@, old(dates)@.len() as int)
            &&& final(bars)@ == outside_span(old(bars)@, start, end, old(bars)@.len() as int)
            &&& changed == (final(bars)@.len() != old(bars)@.len())
        }),
{
    let before = bars.len();
    let (start, end) = match month_epoch_range(month) {
        Some(r) => r,
        None => (0, 0),
    };
    let mut d: Vec<String> = Vec::new();
    std::mem::swap(dates, &mut d);
    *dates = drop_prefixed(d, month);
    let mut b: Vec<T> = Vec::new();
    std::mem::swap(bars, &mut b);
    *bars = drop_span(b, start, end);
    bars.len() != before
}

/// Remove one month from a ticker's GEX cache: the processed month itself
/// and the entries stamped within it. Returns whether any entry was removed.
/// The month must read as a four-digit-year `YYYY-MM`.
pub fn remove_month_gex<T: HasTime>(months: &mut Vec<String>, entries: &mut Vec<T>, month: &str) -> (changed: bool)
    requires
        month_range(month@) is Some,
    ensures
        ({
            let (start, end) = month_range(month@)->0;
            &&& final(months)@ == without_text(old(months)@, month@, old(months)@.len() as int)
            &&& final(entries)@ == outside_span(old(entries)@, start, end, old(entries)@.len() as int)
            &&& changed == (final(entries)@.len() != old(entries)@.len())
        }),
{
    let before = entries.len();
    let (start, end) = match month_epoch_range(month) {
        Some(r) => r,
        None => (0, 0),
    };
    let mut m: Vec<String> = Vec::new();
    std::mem::swap(months, &mut m);
    *months = drop_text(m, month);
    let mut e: Vec<T> = Vec::new();
    std::mem::swap(entries, &mut e);
    *entries = drop_span(e, start, end);
    entries.len() != before
}

/// Remove one month from a ticker's bar cache when the month reads as a
/// four-digit-year `YYYY-MM`: `Some` of whether bars were removed; otherwise
/// `None`, with both lists unchanged.
pub fn try_remove_month_bars<T: HasTime>(dates: &mut Vec<String>, bars: &mut Vec<T>, month: &str) -> (r: Option<bool>)
    ensures
        match month_range(month@) {
            Some((start, end)) => {
                &&& final(dates)@ == without_prefixed(old(dates)@, month@, old(dates)@.len() as int)
                &&& final(bars)@ == outside_span(old(bars)@, start, end, old(bars)@.len() as int)
                &&& r == Some(final(bars)@.len() != old(bars)@.len())
            },
            None => r.is_none() && final(dates)@ == old(dates)@ && final(bars)@ == old(bars)@,
        },
{
    match month_epoch_range(month) {
        Some(_) => Some(remove_month_bars(dates, bars, month)),
        None => None,
    }
}

/// Remove one month from a ticker's GEX cache when the month reads as a
/// four-digit-year `YYYY-MM`: `Some` of whether entries were removed;
/// otherwise `None`, with both lists unchanged.
pub fn try_remove_month_gex<T: HasTime>(months: &mut Vec<String>, entries: &mut Vec<T>, month: &str) -> (r: Option<bool>)
    ensures
        match month_range(month@) {
            Some((start, end)) => {
                &&& final(months)@ == without_text(old(months)@, month@, old(months)@.len() as int)
                &&& final(entries)@ == outside_span(old(entries)@, start, end, old(entries)@.len() as int)
                &&& r == Some(final(entries)@.len() != old(entries)@.len())
            },
            None => r.is_none() && final(months)@ == old(months)@ && final(entries)@ == old(entries)@,
        },
{
    match month_epoch_range(month) {
        Some(_) => Some(remove_month_gex(months, entries, month)),
        None => None,
    }
}

// ─── Processed-set caches ───────────────────────────────────────────────────

/// A fresh copy of a list of texts.
fn copy_texts(v: &Vec<String>) -> (r: Vec<String>)
    ensures
        r@ == v@,
{
    let mut out: Vec<String> = Vec::new();
    let mut i: usize = 0;
    while i < v.len()
        invariant
            i <= v@.len(),
            out@ == v@.subrange(0, i as int),
        decreases v.len() - i,
    {
        out.push(v[i].clone());
        i = i + 1;
        proof {
            assert(out@ =~= v@.subrange(0, i as int));
        }
    }
    proof {
        assert(v@.subrange(0, v@.len() as int) =~= v@);
    }
    out
}

/// The set cached for `ticker`, or, on a miss, the one `read_stored` gives,
/// which is then cached.
fn cached_set<F: FnOnce() -> Vec<String>>(cache: &mut Store<Ticker, Vec<String>>, ticker: Ticker, read_stored: F) -> (r: Vec<String>)
    requires
        read_stored.requires(()),
    ensures
        old(cache)@.contains_key(ticker) ==> r@ == old(cache)@[ticker]@ && final(cache)@ == old(cache)@,
        !old(cache)@.contains_key(ticker) ==> read_stored.ensures((), r) && final(cache)@.dom() == old(
            cache,
        )@.dom().insert(ticker) && final(cache)@[ticker]@ == r@ && final(cache)@.remove(ticker) == old(
            cache,
        )@.remove(ticker),
{
    match cache.get(&ticker) {
        Some(v) => {
            return copy_texts(v);
        },
        None => {},
    }
    let fresh = read_stored();
    let stored = copy_texts(&fresh);
    cache.put(ticker, stored);
    proof {
        assert(cache@.remove(ticker) =~= old(cache)@.remove(ticker));
        assert(cache@.dom() =~= old(cache)@.dom().insert(ticker));
    }
    fresh
}

/// After a ticker's cache file was written with the processed set `set`
/// (an appended day or month): the in-process copy becomes that set.
pub fn remember_processed(cache: &mut Store<Ticker, Vec<String>>, ticker: Ticker, set: &Vec<String>)
    ensures
        final(cache)@ == old(cache)@.insert(ticker, final(cache)@[ticker]),
        final(cache)@[ticker]@ == set@,
{
    cache.put(ticker, copy_texts(set));
}

/// After a month was removed from a ticker's cache file: the in-process copy
/// of its processed set is dropped, so the next request reads the file.
pub fn forget_processed(cache: &mut Store<Ticker, Vec<String>>, ticker: Ticker)
    ensures
        final(cache)@ == old(cache)@.remove(ticker),
{
    cache.remove(&ticker);
}

/// A day recorded by `append_day_bars` and then remembered for the ticker is
/// in the set that `cached_bar_dates` serves for it from then on.
pub proof fn law_appended_date_is_served(
    old_dates: Seq<String>,
    new_dates: Seq<String>,
    date: Seq<char>,
    cache: Map<Ticker, Vec<String>>,
    ticker: Ticker,
)
    requires
        texts(new_dates) == texts(old_dates).push(date),
        cache.contains_key(ticker),
        cache[ticker]@ == new_dates,
    ensures
        has_text(cache[ticker]@, date),
{
    let k = old_dates.len() as int;
    assert(texts(new_dates).len() == new_dates.len());
    assert(texts(new_dates)[k] == new_dates[k]@);
}

/// All processed dates of a ticker's bar cache (holidays included), read
/// with `read_stored` on the first request and served from `cache` after.
pub fn cached_bar_dates<F: FnOnce() -> Vec<String>>(cache: &mut Store<Ticker, Vec<String>>, ticker: Ticker, read_stored: F) -> (r: Vec<String>)
    requires
        read_stored.requires(()),
    ensures
        old(cache)@.contains_key(ticker) ==> r@ == old(cache)@[ticker]@ && final(cache)@ == old(cache)@,
        !old(cache)@.contains_key(ticker) ==> read_stored.ensures((), r) && final(cache)@.dom() == old(
            cache,
        )@.dom().insert(ticker) && final(cache)@[ticker]@ == r@ && final(cache)@.remove(ticker) == old(
            cache,
        )@.remove(ticker),
{
    cached_set(cache, ticker, read_stored)
}

/// All processed `YYYY-MM` months of a ticker's GEX cache (empty ones
/// included), read with `read_stored` on the first request and served from
/// `cache` after.
pub fn cached_gex_months<F: FnOnce() -> Vec<String>>(cache: &mut Store<Ticker, Vec<String>>, ticker: Ticker, read_stored: F) -> (r: Vec<String>)
    requires
        read_stored.requires(()),
    ensures
        old(cache)@.contains_key(ticker) ==> r@ == old(cache)@[ticker]@ && final(cache)@ == old(cache)@,
        !old(cache)@.contains_key(ticker) ==> read_stored.ensures((), r) && final(cache)@.dom() == old(
            cache,
        )@.dom().insert(ticker) && final(cache)@[ticker]@ == r@ && final(cache)@.remove(ticker) == old(
            cache,
        )@.remove(ticker),
{
    cached_set(cache, ticker, read_stored)
}

// ─── Appending a day or a month ──────────────────────────────────────────────

/// Ordered by time, earliest first.
pub open spec fn time_sorted<T: HasTime>(s: Seq<T>) -> bool {
    forall|i: int, j: int| 0 <= i <= j < s.len() ==> #[trigger] s[i].time_of() <= #[trigger] s[j].time_of()
}

/// The items of `s` stamped `t`, in order.
pub open spec fn stamped<T: HasTime>(s: Seq<T>, t: i64) -> Seq<T> {
    s.filter(|e: T| e.time_of() == t)
}

/// `after` is `before` stably sorted by time: ordered by time, with the
/// items of each time in the order they had.
pub open spec fn stable_time_sort<T: HasTime>(before: Seq<T>, after: Seq<T>) -> bool {
    &&& after.len() == before.len()
    &&& time_sorted(after)
    &&& forall|t: i64| #[trigger] stamped(after, t) == stamped(before, t)
}

/// Calls `slice::sort_by_key` with each item's time as the key. Claims what
/// std documents of it: the items end up ordered by key, and the sort is
/// stable, so items with equal keys keep their order.
#[verifier::external_body]
fn sort_by_time<T: HasTime>(v: &mut Vec<T>)
    ensures
        stable_time_sort(old(v)@, final(v)@),
{
    v.sort_by_key(|e| e.time());
}

/// Some item of `s` is stamped `t`.
pub open spec fn has_time<T: HasTime>(s: Seq<T>, t: i64) -> bool {
    exists|j: int| 0 <= j < s.len() && #[trigger] s[j].time_of() == t
}

/// The first `n` items of `m` whose time no item of `existing` has, in order.
pub open spec fn unseen_times<T: HasTime>(existing: Seq<T>, m: Seq<T>, n: int) -> Seq<T>
    decreases n,
{
    if n <= 0 {
        Seq::empty()
    } else if has_time(existing, m[n - 1].time_of()) {
        unseen_times(existing, m, n - 1)
    } else {
        unseen_times(existing, m, n - 1).push(m[n - 1])
    }
}

/// Whether an item of `v` is stamped `t`.
fn any_at_time<T: HasTime>(v: &Vec<T>, t: i64) -> (r: bool)
    ensures
        r == has_time(v@, t),
{
    let mut j: usize = 0;
    while j < v.len()
        invariant
            j <= v@.len(),
            forall|k: int| 0 <= k < j ==> #[trigger] v@[k].time_of() != t,
        decreases v.len() - j,
    {
        if v[j].time() == t {
            return true;
        }
        j = j + 1;
    }
    false
}

/// The items of `m` whose time no item of `existing` has, in order.
fn keep_unseen<T: HasTime>(existing: &Vec<T>, m: Vec<T>) -> (r: Vec<T>)
    ensures
        r@ == unseen_times(existing@, m@, m@.len() as int),
{
    let mut rest = m;
    let ghost all = rest@;
    let mut stack: Vec<T> = Vec::new();
    while rest.len() > 0
        invariant
            rest@ == all.subrange(0, rest@.len() as int),
            rest@.len() <= all.len(),
            stack@.len() == all.len() - rest@.len(),
            forall|k: int| 0 <= k < stack@.len() ==> #[trigger] stack@[k] == all[all.len() - 1 - k],
        decreases rest@.len(),
    {
        let x = rest.pop().unwrap();
        stack.push(x);
    }
    let mut kept: Vec<T> = Vec::new();
    while stack.len() > 0
        invariant
            stack@.len() <= all.len(),
            forall|k: int| 0 <= k < stack@.len() ==> #[trigger] stack@[k] == all[all.len() - 1 - k],
            kept@ == unseen_times(existing@, all, all.len() - stack@.len()),
        decreases stack@.len(),
    {
        let x = stack.pop().unwrap();
        if !any_at_time(existing, x.time()) {
            kept.push(x);
        }
    }
    kept
}

/// Record a day in a ticker's bar cache: `date` joins the processed dates
/// (empty days and holidays too) and the day's bars join the cached ones,
/// stably sorted by time. A date already processed changes nothing. Returns
/// whether the cache changed (and so must be written back).
pub fn append_day_bars<T: HasTime>(dates: &mut Vec<String>, bars: &mut Vec<T>, date: &str, day_bars: Vec<T>) -> (changed: bool)
    ensures
        changed == !has_text(old(dates)@, date@),
        !changed ==> final(dates)@ == old(dates)@ && final(bars)@ == old(bars)@,
        changed ==> texts(final(dates)@) == texts(old(dates)@).push(date@),
        changed && day_bars@.len() == 0 ==> final(bars)@ == old(bars)@,
        changed && day_bars@.len() > 0 ==> stable_time_sort(old(bars)@ + day_bars@, final(bars)@),
{
    if contains_text(dates.as_slice(), date) {
        return false;
    }
    dates.push(owned(date));
    proof {
        assert(texts(dates@) =~= texts(old(dates)@).push(date@));
    }
    if day_bars.len() > 0 {
        let mut more = day_bars;
        bars.append(&mut more);
        sort_by_time(bars);
    }
    true
}

/// Record a month in a ticker's GEX cache: `month` joins the processed
/// months and, of the month's entries, those at a time the cache does not
/// hold yet join the cached ones, stably sorted by time. A month already
/// processed changes nothing. Returns whether the cache changed.
pub fn append_month_gex<T: HasTime>(months: &mut Vec<String>, entries: &mut Vec<T>, month: &str, month_entries: Vec<T>) -> (changed: bool)
    ensures
        changed == !has_text(old(months)@, month@),
        !changed ==> final(months)@ == old(months)@ && final(entries)@ == old(entries)@,
        changed ==> texts(final(months)@) == texts(old(months)@).push(month@),
        changed && month_entries@.len() == 0 ==> final(entries)@ == old(entries)@,
        changed && month_entries@.len() > 0 ==> stable_time_sort(
            old(entries)@ + unseen_times(old(entries)@, month_entries@, month_entries@.len() as int),
            final(entries)@,
        ),
{
    if contains_text(months.as_slice(), month) {
        return false;
    }
    months.push(owned(month));
    proof {
        assert(texts(months@) =~= texts(old(months)@).push(month@));
    }
    if month_entries.len() > 0 {
        let mut fresh = keep_unseen(entries, month_entries);
        entries.append(&mut fresh);
        sort_by_time(entries);
    }
    true
}

// ─── Migration from the per-day directory tree ──────────────────────────────

/// A `month/day` directory pair that the bar migration reads: the month named
/// by seven bytes starting with `20`, the day by ten bytes starting with the
/// month's name.
pub open spec fn migratable_entry(month: Seq<char>, day: Seq<char>) -> bool {
    &&& vstd::utf8::encode_utf8(month).len() == 7
    &&& seq_starts_with(month, "20"@)
    &&& vstd::utf8::encode_utf8(day).len() == 10
    &&& seq_starts_with(day, month)
}

/// The dates that the first `n` steps of the walk add to the processed set
/// `done`, in order: each migratable day not processed and not added before.
pub open spec fn migration_dates(done: Seq<String>, walk: Seq<(String, String)>, n: int) -> Seq<Seq<char>>
    decreases n,
{
    if n <= 0 {
        Seq::empty()
    } else {
        let prev = migration_dates(done, walk, n - 1);
        let m = walk[n - 1].0@;
        let d = walk[n - 1].1@;
        if migratable_entry(m, d) && !has_text(done, d) && !prev.contains(d) {
            prev.push(d)
        } else {
            prev
        }
    }
}

/// The days that migrating a ticker's per-day directory tree adds to its
/// processed dates `done`. `walk` lists the tree's `(month, day)` directory
/// names in the order they are visited; a day is taken once, the first time
/// it is met.
pub fn migration_new_dates(done: &[String], walk: &[(String, String)]) -> (r: Vec<String>)
    ensures
        texts(r@) == migration_dates(done@, walk@, walk@.len() as int),
{
    let mut out: Vec<String> = Vec::new();
    let mut i: usize = 0;
    proof {
        assert(texts(out@) =~= Seq::<Seq<char>>::empty());
    }
    while i < walk.len()
        invariant
            i <= walk@.len(),
            texts(out@) == migration_dates(done@, walk@, i as int),
        decreases walk.len() - i,
    {
        let m = walk[i].0.as_str();
        let d = walk[i].1.as_str();
        let ghost pre = out@;
        let shaped = m.as_bytes().len() == 7 && starts_with(m, "20") && d.as_bytes().len() == 10 && starts_with(d, m);
        proof {
            reveal_strlit("20");
        }
        if shaped && !contains_text(done, d) {
            let seen = contains_text(out.as_slice(), d);
            proof {
                if seen {
                    let k = choose|k: int| 0 <= k < out@.len() && #[trigger] out@[k]@ == d@;
                    assert(texts(out@)[k] == d@);
                } else if texts(out@).contains(d@) {
                    let k = choose|k: int| 0 <= k < texts(out@).len() && texts(out@)[k] == d@;
                    assert(out@[k]@ == d@);
                }
            }
            if !seen {
                out.push(walk[i].1.clone());
                proof {
                    assert(texts(out@) =~= texts(pre).push(d@));
                }
            }
        }
        i = i + 1;
    }
    out
}

} // verus!
