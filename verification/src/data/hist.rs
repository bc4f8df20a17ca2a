//! Historical bars: resampling 1-minute bars into strategy bars, and the
//! per-day / per-month lookups over the in-memory cache.

use vstd::prelude::*;
use crate::config::bar_interval::{bucket_secs_i64, Minutes, BAR_INTERVAL_MINUTES};
use crate::config::tickers::Ticker;
use crate::data::cache::is_char_boundary_at;
use crate::data::mem_cache::{
    deref_opt, get_bars, get_bars_15m, get_gex, held, put_all, put_bars, put_bars_15m,
    put_gex_bulk, MemCache,
};
use crate::data::store::Store;
use crate::dates::{
    day_start_secs, day_start_unix, format_day, in_day_range, iso_day_text, parse_day, parse_iso_day,
    FIRST_DAY, LAST_DAY, SECS_PER_DAY, UNIX_EPOCH_DAY,
};
use crate::text::{owned, str_eq};
use crate::types::OhlcBar;

verus! {

/// Version tag of the unified GEX cache files.
pub const VERSION_GEX: u32 = 5;
/// Version tag of the raw options-chain cache files.
pub const VERSION_RAW: u32 = 5;

/// Start of the `b`-second bucket holding time `ts`, rounding toward zero
/// (the remainder taken as `%` does on signed integers).
pub open spec fn bucket_start(ts: int, b: int) -> int {
    if ts >= 0 {
        ts - ts % b
    } else {
        ts + (-ts) % b
    }
}

/// The first index at or after `k` whose bar does not start before `end`
/// (or the length when every remaining bar does).
pub open spec fn run_end(s: Seq<OhlcBar>, k: int, end: int) -> int
    decreases s.len() - k,
{
    if 0 <= k < s.len() && s[k].timestamp < end {
        run_end(s, k + 1, end)
    } else {
        k
    }
}

/// Highest high of bars `i..j` (the bar at `i` when the span is shorter).
pub open spec fn span_high(s: Seq<OhlcBar>, i: int, j: int) -> i64
    decreases j - i,
{
    if j <= i + 1 {
        s[i].high
    } else {
        let h = span_high(s, i, j - 1);
        if s[j - 1].high > h { s[j - 1].high } else { h }
    }
}

/// Lowest low of bars `i..j` (the bar at `i` when the span is shorter).
pub open spec fn span_low(s: Seq<OhlcBar>, i: int, j: int) -> i64
    decreases j - i,
{
    if j <= i + 1 {
        s[i].low
    } else {
        let l = span_low(s, i, j - 1);
        if s[j - 1].low < l { s[j - 1].low } else { l }
    }
}

/// Total volume of bars `i..j`.
pub open spec fn span_volume(s: Seq<OhlcBar>, i: int, j: int) -> nat
    decreases j - i,
{
    if j <= i {
        0
    } else {
        span_volume(s, i, j - 1) + s[j - 1].volume as nat
    }
}

/// Total volume of a bar sequence.
pub open spec fn total_volume(s: Seq<OhlcBar>) -> nat {
    span_volume(s, 0, s.len() as int)
}

/// A volume clamped to what a `u64` holds.
pub open spec fn clamp_volume(v: nat) -> u64 {
    if v <= u64::MAX { v as u64 } else { u64::MAX }
}

/// Bars `i..j` merged into one: time and open of the first, close of the
/// last, the extreme high and low, and the summed volume (saturating at
/// `u64::MAX`).
pub open spec fn merged_bar(s: Seq<OhlcBar>, i: int, j: int) -> OhlcBar {
    OhlcBar {
        timestamp: s[i].timestamp,
        open: s[i].open,
        high: span_high(s, i, j),
        low: span_low(s, i, j),
        close: s[j - 1].close,
        volume: clamp_volume(span_volume(s, i, j)),
    }
}

/// Index just past the bucket that starts at bar `i`.
pub open spec fn bucket_end_index(s: Seq<OhlcBar>, b: int, i: int) -> int {
    run_end(s, i + 1, bucket_start(s[i].timestamp as int, b) + b)
}

/// Bounds of `run_end`.
pub proof fn lemma_run_end_bounds(s: Seq<OhlcBar>, k: int, end: int)
    requires
        0 <= k <= s.len(),
    ensures
        k <= run_end(s, k, end) <= s.len(),
    decreases s.len() - k,
{
    if k < s.len() && s[k].timestamp < end {
        lemma_run_end_bounds(s, k + 1, end);
    }
}

/// Merged buckets of `s` from bar `i` on, each bucket `b` seconds wide and
/// stamped with its first bar.
pub open spec fn resample_from(s: Seq<OhlcBar>, b: int, i: int) -> Seq<OhlcBar>
    decreases s.len() - i,
{
    if 0 <= i < s.len() {
        let j = bucket_end_index(s, b, i);
        proof {
            lemma_run_end_bounds(s, i + 1, bucket_start(s[i].timestamp as int, b) + b);
        }
        seq![merged_bar(s, i, j)] + resample_from(s, b, j)
    } else {
        Seq::empty()
    }
}

/// 1-minute bars resampled into `interval`-minute bars; at one minute or
/// less, or with no bars, the input itself.
pub open spec fn resampled(s: Seq<OhlcBar>, interval: int) -> Seq<OhlcBar> {
    if interval <= 1 || s.len() == 0 {
        s
    } else {
        resample_from(s, interval * 60, 0)
    }
}

/// Bar `o` summarises bars `i..j` of `s`: it starts when and where the first
/// starts, closes where the last closes, and its high and low are the highest
/// high and lowest low among them (each reached by one of them).
pub open spec fn summarises(o: OhlcBar, s: Seq<OhlcBar>, i: int, j: int) -> bool {
    &&& 0 <= i < j <= s.len()
    &&& o.timestamp == s[i].timestamp
    &&& o.open == s[i].open
    &&& o.close == s[j - 1].close
    &&& forall|t: int| i <= t < j ==> #[trigger] s[t].high <= o.high && o.low <= s[t].low
    &&& exists|t: int| i <= t < j && o.high == #[trigger] s[t].high
    &&& exists|t: int| i <= t < j && o.low == #[trigger] s[t].low
}

/// Bars `i..j` of `s` are one `b`-second bucket: every bar after the first
/// starts before the end of the first bar's bucket, and the bar after them
/// (if any) does not.
pub open spec fn one_bucket(s: Seq<OhlcBar>, b: int, i: int, j: int) -> bool {
    &&& forall|t: int| i < t < j ==> (#[trigger] s[t]).timestamp < bucket_start(s[i].timestamp as int, b) + b
    &&& j < s.len() ==> s[j].timestamp >= bucket_start(s[i].timestamp as int, b) + b
}

/// The highest high of a span is one of its highs and none is higher.
proof fn lemma_span_high_max(s: Seq<OhlcBar>, i: int, j: int)
    requires
        0 <= i < j <= s.len(),
    ensures
        forall|t: int| i <= t < j ==> #[trigger] s[t].high <= span_high(s, i, j),
        exists|t: int| i <= t < j && span_high(s, i, j) == #[trigger] s[t].high,
    decreases j - i,
{
    if j > i + 1 {
        lemma_span_high_max(s, i, j - 1);
        let t0 = choose|t: int| i <= t < j - 1 && span_high(s, i, j - 1) == #[trigger] s[t].high;
        if s[j - 1].high > span_high(s, i, j - 1) {
            assert(span_high(s, i, j) == s[j - 1].high);
        } else {
            assert(span_high(s, i, j) == s[t0].high);
        }
    } else {
        assert(span_high(s, i, j) == s[i].high);
    }
}

/// The lowest low of a span is one of its lows and none is lower.
proof fn lemma_span_low_min(s: Seq<OhlcBar>, i: int, j: int)
    requires
        0 <= i < j <= s.len(),
    ensures
        forall|t: int| i <= t < j ==> span_low(s, i, j) <= #[trigger] s[t].low,
        exists|t: int| i <= t < j && span_low(s, i, j) == #[trigger] s[t].low,
    decreases j - i,
{
    if j > i + 1 {
        lemma_span_low_min(s, i, j - 1);
        let t0 = choose|t: int| i <= t < j - 1 && span_low(s, i, j - 1) == #[trigger] s[t].low;
        if s[j - 1].low < span_low(s, i, j - 1) {
            assert(span_low(s, i, j) == s[j - 1].low);
        } else {
            assert(span_low(s, i, j) == s[t0].low);
        }
    } else {
        assert(span_low(s, i, j) == s[i].low);
    }
}

/// `run_end` stops at the first bar from `k` on that does not start before `end`.
proof fn lemma_run_end_stops(s: Seq<OhlcBar>, k: int, end: int)
    requires
        0 <= k <= s.len(),
    ensures
        forall|t: int| k <= t < run_end(s, k, end) ==> (#[trigger] s[t]).timestamp < end,
        run_end(s, k, end) < s.len() ==> s[run_end(s, k, end)].timestamp >= end,
    decreases s.len() - k,
{
    if k < s.len() && s[k].timestamp < end {
        lemma_run_end_stops(s, k + 1, end);
    }
}

/// Each bar resampled from bar `i0` on summarises one bucket at or after `i0`.
proof fn lemma_resample_from_buckets(s: Seq<OhlcBar>, b: int, i0: int, k: int)
    requires
        0 <= i0 <= s.len(),
        0 <= k < resample_from(s, b, i0).len(),
    ensures
        exists|i: int, j: int|
            i0 <= i && #[trigger] summarises(resample_from(s, b, i0)[k], s, i, j) && one_bucket(s, b, i, j),
    decreases s.len() - i0,
{
    if i0 < s.len() {
        let end = bucket_start(s[i0].timestamp as int, b) + b;
        let j = bucket_end_index(s, b, i0);
        lemma_run_end_bounds(s, i0 + 1, end);
        let rest = resample_from(s, b, j);
        assert(resample_from(s, b, i0) == seq![merged_bar(s, i0, j)] + rest);
        if k == 0 {
            lemma_span_high_max(s, i0, j);
            lemma_span_low_min(s, i0, j);
            lemma_run_end_stops(s, i0 + 1, end);
            let o = merged_bar(s, i0, j);
            assert(resample_from(s, b, i0)[0] == o);
            assert(summarises(o, s, i0, j));
            assert(one_bucket(s, b, i0, j));
        } else {
            assert(resample_from(s, b, i0)[k] == rest[k - 1]);
            lemma_resample_from_buckets(s, b, j, k - 1);
            let (i, jj) = choose|i: int, jj: int| j <= i && #[trigger] summarises(rest[k - 1], s, i, jj) && one_bucket(s, b, i, jj);
            assert(i0 <= i && summarises(resample_from(s, b, i0)[k], s, i, jj) && one_bucket(s, b, i, jj));
        }
    } else {
        assert(resample_from(s, b, i0).len() == 0);
    }
}

/// Resampling into buckets of more than a minute: every output bar
/// summarises one bucket of consecutive input bars — the time and open of
/// its first bar, the close of its last, the highest high and the lowest low
/// of all of them (so no bar's high or low is lost or invented).
pub proof fn law_resampled_bar_summarises_bucket(s: Seq<OhlcBar>, interval: int, k: int)
    requires
        interval > 1,
        0 <= k < resampled(s, interval).len(),
    ensures
        exists|i: int, j: int|
            #[trigger] summarises(resampled(s, interval)[k], s, i, j) && one_bucket(s, interval * 60, i, j),
{
    lemma_resample_from_buckets(s, interval * 60, 0, k);
    let (i, j) = choose|i: int, j: int|
        0 <= i && #[trigger] summarises(resample_from(s, interval * 60, 0)[k], s, i, j) && one_bucket(s, interval * 60, i, j);
    assert(summarises(resampled(s, interval)[k], s, i, j));
}

/// Volume of a span splits at any point inside it.
pub proof fn lemma_span_volume_split(s: Seq<OhlcBar>, a: int, b: int, c: int)
    requires
        a <= b <= c,
    ensures
        span_volume(s, a, c) == span_volume(s, a, b) + span_volume(s, b, c),
    decreases c - b,
{
    if b < c {
        lemma_span_volume_split(s, a, b, c - 1);
    }
}

/// The volume of `[x] + r` is that of `x` plus that of `r`.
proof fn lemma_total_volume_cons(x: OhlcBar, r: Seq<OhlcBar>)
    ensures
        total_volume(seq![x] + r) == x.volume as nat + total_volume(r),
{
    let t = seq![x] + r;
    assert(t[0] == x);
    assert(span_volume(t, 0, 0) == 0);
    assert(span_volume(t, 0, 1) == x.volume as nat);
    assert forall|k: int| 0 <= k < r.len() implies t[k + 1] == r[k] by {}
    lemma_span_volume_split(t, 0, 1, t.len() as int);
    lemma_span_volume_shift(t, r, t.len() as int);
}

/// Dropping the first bar shifts every span by one.
proof fn lemma_span_volume_shift(t: Seq<OhlcBar>, r: Seq<OhlcBar>, n: int)
    requires
        t.len() == r.len() + 1,
        forall|k: int| 0 <= k < r.len() ==> t[k + 1] == r[k],
        1 <= n <= t.len(),
    ensures
        span_volume(t, 1, n) == span_volume(r, 0, n - 1),
    decreases n,
{
    if n > 1 {
        lemma_span_volume_shift(t, r, n - 1);
        assert(t[n - 1] == r[n - 2]);
    }
}

/// Resampling keeps the total volume and never yields more bars than it was
/// given (when the total volume fits in a `u64`).
pub proof fn law_resample_keeps_volume(s: Seq<OhlcBar>, interval: int)
    requires
        total_volume(s) <= u64::MAX,
    ensures
        total_volume(resampled(s, interval)) == total_volume(s),
        resampled(s, interval).len() <= s.len(),
{
    if !(interval <= 1 || s.len() == 0) {
        lemma_resample_from_volume_capped(s, interval * 60, 0);
    }
}

/// As `lemma_resample_from_volume`, with each merged volume within `u64`.
proof fn lemma_resample_from_volume_capped(s: Seq<OhlcBar>, b: int, i: int)
    requires
        0 <= i <= s.len(),
        span_volume(s, i, s.len() as int) <= u64::MAX,
    ensures
        total_volume(resample_from(s, b, i)) == span_volume(s, i, s.len() as int),
        resample_from(s, b, i).len() <= s.len() - i,
    decreases s.len() - i,
{
    if i < s.len() {
        let j = bucket_end_index(s, b, i);
        lemma_run_end_bounds(s, i + 1, bucket_start(s[i].timestamp as int, b) + b);
        lemma_span_volume_split(s, i, j, s.len() as int);
        lemma_resample_from_volume_capped(s, b, j);
        lemma_total_volume_cons(merged_bar(s, i, j), resample_from(s, b, j));
    } else {
        assert(resample_from(s, b, i) =~= Seq::<OhlcBar>::empty());
    }
}

/// Start of the bucket holding `ts`, for a positive width `b`.
fn bucket_start_exec(ts: i64, b: i64) -> (r: i64)
    requires
        b > 0,
    ensures
        r == bucket_start(ts as int, b as int),
{
    if ts >= 0 {
        let m: u64 = (ts as u64) % (b as u64);
        ts - (m as i64)
    } else {
        let neg: u64 = (0i128 - (ts as i128)) as u64;
        let m: u64 = neg % (b as u64);
        ts + (m as i64)
    }
}

/// Resample 1-minute bars into `interval_minutes`-minute bars. Each output bar
/// covers the bars that start before the end of the bucket of its first bar
/// and carries that first bar's time (the interval's start). At one minute or
/// less, or with no bars, the input is returned as it is.
pub fn resample_bars(bars: &[OhlcBar], interval_minutes: Minutes) -> (out: Vec<OhlcBar>)
    ensures
        out@ == resampled(bars@, interval_minutes as int),
{
    let ghost s = bars@;
    let mut out: Vec<OhlcBar> = Vec::new();
    if interval_minutes <= 1 || bars.len() == 0 {
        let mut k: usize = 0;
        while k < bars.len()
            invariant
                k <= bars.len(),
                s == bars@,
                out@ == s.subrange(0, k as int),
            decreases bars.len() - k,
        {
            out.push(bars[k]);
            k = k + 1;
            proof {
                assert(out@ =~= s.subrange(0, k as int));
            }
        }
        proof {
            assert(out@ =~= s);
        }
        return out;
    }
    let bucket_secs = bucket_secs_i64(interval_minutes);
    let ghost b: int = bucket_secs as int;
    let n = bars.len();
    let mut i: usize = 0;
    while i < n
        invariant
            n == bars.len(),
            s == bars@,
            b == bucket_secs as int,
            bucket_secs > 0,
            i <= n,
            resample_from(s, b, 0) == out@ + resample_from(s, b, i as int),
        decreases n - i,
    {
        let i0 = i;
        let ts0 = bars[i].timestamp;
        let start = bucket_start_exec(ts0, bucket_secs);
        let bucket_end: i128 = (start as i128) + (bucket_secs as i128);
        let ghost end: int = bucket_end as int;
        let mut agg = bars[i];
        i = i + 1;
        proof {
            assert(span_volume(s, i0 as int, i0 as int) == 0);
            assert(span_volume(s, i0 as int, i as int) == agg.volume as nat);
        }
        while i < n && (bars[i].timestamp as i128) < bucket_end
            invariant
                n == bars.len(),
                s == bars@,
                i0 < i <= n,
                end == bucket_end as int,
                run_end(s, i as int, end) == run_end(s, i0 + 1, end),
                agg.timestamp == s[i0 as int].timestamp,
                agg.open == s[i0 as int].open,
                agg.high == span_high(s, i0 as int, i as int),
                agg.low == span_low(s, i0 as int, i as int),
                agg.close == s[i - 1].close,
                agg.volume == clamp_volume(span_volume(s, i0 as int, i as int)),
            decreases n - i,
        {
            if bars[i].high > agg.high {
                agg.high = bars[i].high;
            }
            if bars[i].low < agg.low {
                agg.low = bars[i].low;
            }
            agg.close = bars[i].close;
            agg.volume = agg.volume.saturating_add(bars[i].volume);
            i = i + 1;
        }
        proof {
            lemma_run_end_bounds(s, i0 + 1, end);
            assert(run_end(s, i as int, end) == i as int);
            assert(agg == merged_bar(s, i0 as int, i as int));
            assert(resample_from(s, b, i0 as int) == seq![agg] + resample_from(s, b, i as int));
        }
        let ghost pre = out@;
        out.push(agg);
        proof {
            assert(out@ + resample_from(s, b, i as int) =~= pre + (seq![agg] + resample_from(s, b, i as int)));
        }
    }
    proof {
        assert(resample_from(s, b, n as int) =~= Seq::<OhlcBar>::empty());
        assert(out@ + Seq::<OhlcBar>::empty() =~= out@);
    }
    out
}

// ─── Day keys of bars ───────────────────────────────────────────────────────

/// The UTC day of a Unix time (days counted as in [`crate::dates`]).
pub open spec fn utc_day(ts: i64) -> int {
    ts as int / 86400 + UNIX_EPOCH_DAY
}

/// A bar whose UTC day has a four-digit year.
pub open spec fn dated(b: OhlcBar) -> bool {
    in_day_range(utc_day(b.timestamp))
}

/// `YYYY-MM-DD` of a bar's UTC day.
pub open spec fn bar_date(b: OhlcBar) -> Seq<char> {
    iso_day_text(utc_day(b.timestamp) as i32)
}

/// The dated bars among the first `n` whose date is `d`, in order.
pub open spec fn day_bars(all: Seq<OhlcBar>, d: Seq<char>, n: int) -> Seq<OhlcBar>
    decreases n,
{
    if n <= 0 {
        Seq::empty()
    } else if dated(all[n - 1]) && bar_date(all[n - 1]) == d {
        day_bars(all, d, n - 1).push(all[n - 1])
    } else {
        day_bars(all, d, n - 1)
    }
}

/// Some dated bar among the first `n` has date `d`.
pub open spec fn has_day(all: Seq<OhlcBar>, d: Seq<char>, n: int) -> bool {
    exists|j: int| 0 <= j < n && dated(#[trigger] all[j]) && bar_date(all[j]) == d
}

/// `new` is `old` with each date of the first `n` bars set, under `t`, to
/// that date's bars; every other key kept.
pub open spec fn populated(
    old: Map<(Ticker, Seq<char>), Vec<OhlcBar>>,
    new: Map<(Ticker, Seq<char>), Vec<OhlcBar>>,
    t: Ticker,
    all: Seq<OhlcBar>,
    n: int,
) -> bool {
    &&& forall|d: Seq<char>| #[trigger] has_day(all, d, n) ==> new.contains_key((t, d)) && new[(t, d)]@ == day_bars(all, d, n)
    &&& forall|k: (Ticker, Seq<char>)| !(k.0 == t && has_day(all, k.1, n)) ==> (#[trigger] new.contains_key(k) == old.contains_key(k)
        && (old.contains_key(k) ==> new[k] == old[k]))
}

/// No dated bar of date `d` means no bars for it.
proof fn lemma_no_day(all: Seq<OhlcBar>, d: Seq<char>, n: int)
    requires
        0 <= n <= all.len(),
        !has_day(all, d, n),
    ensures
        day_bars(all, d, n) == Seq::<OhlcBar>::empty(),
    decreases n,
{
    if n > 0 {
        assert(!(dated(all[n - 1]) && bar_date(all[n - 1]) == d));
        assert(!has_day(all, d, n - 1));
        lemma_no_day(all, d, n - 1);
    }
}

/// Extending by one bar: only its own date (when dated) gains it.
proof fn lemma_day_step(all: Seq<OhlcBar>, d: Seq<char>, n: int)
    requires
        0 <= n < all.len(),
    ensures
        has_day(all, d, n + 1) == (has_day(all, d, n) || (dated(all[n]) && bar_date(all[n]) == d)),
{
    if has_day(all, d, n) {
        let j = choose|j: int| 0 <= j < n && dated(#[trigger] all[j]) && bar_date(all[j]) == d;
        assert(0 <= j < n + 1 && dated(all[j]) && bar_date(all[j]) == d);
    }
    if dated(all[n]) && bar_date(all[n]) == d {
        assert(0 <= n < n + 1 && dated(all[n]) && bar_date(all[n]) == d);
    }
}

/// Floor of `ts / 86400`.
fn floor_day(ts: i64) -> (r: i64)
    ensures
        r == ts as int / 86400,
{
    if ts >= 0 {
        ((ts as u64) / 86400) as i64
    } else {
        let m: u64 = (0i128 - (ts as i128)) as u64;
        let q: u64 = (m + 86399) / 86400;
        proof {
            assert(q * 86400 <= m + 86399 < q * 86400 + 86400) by (nonlinear_arith)
                requires
                    q == (m + 86399) / 86400,
            ;
            let r: int = -(q as int);
            assert(r * 86400 <= (ts as int) && (ts as int) < r * 86400 + 86400);
            vstd::arithmetic::div_mod::lemma_fundamental_div_mod_converse_div(
                ts as int,
                86400,
                r,
                ts as int - r * 86400,
            );
        }
        0 - (q as i64)
    }
}

/// `YYYY-MM-DD` of a bar's UTC day, when it has a four-digit year.
fn bar_date_text(b: &OhlcBar) -> (r: Option<String>)
    ensures
        dated(*b) ==> (r matches Some(t) && t@ == bar_date(*b)),
        !dated(*b) ==> r is None,
{
    let q = floor_day(b.timestamp);
    if q < (FIRST_DAY as i64) - (UNIX_EPOCH_DAY as i64) || q > (LAST_DAY as i64) - (UNIX_EPOCH_DAY as i64) {
        return None;
    }
    let day = (q + UNIX_EPOCH_DAY as i64) as i32;
    Some(format_day(day))
}

/// A run of bars `s..i` all dated `day` adds exactly them to that day.
proof fn lemma_run(all: Seq<OhlcBar>, day: Seq<char>, s: int, i: int)
    requires
        0 <= s <= i <= all.len(),
        forall|k: int| s <= k < i ==> dated(#[trigger] all[k]) && bar_date(all[k]) == day,
    ensures
        day_bars(all, day, i) == day_bars(all, day, s) + all.subrange(s, i),
        forall|d: Seq<char>| d != day ==> day_bars(all, d, i) == day_bars(all, d, s),
        forall|d: Seq<char>| d != day ==> #[trigger] has_day(all, d, i) == has_day(all, d, s),
        i > s ==> has_day(all, day, i),
    decreases i - s,
{
    if i > s {
        lemma_run(all, day, s, i - 1);
        assert(day_bars(all, day, i) =~= day_bars(all, day, s) + all.subrange(s, i));
        assert forall|d: Seq<char>| d != day implies #[trigger] has_day(all, d, i) == has_day(all, d, s) by {
            lemma_day_step(all, d, i - 1);
        }
        lemma_day_step(all, day, i - 1);
    } else {
        assert(all.subrange(s, i) =~= Seq::<OhlcBar>::empty());
        assert(day_bars(all, day, s) + all.subrange(s, i) =~= day_bars(all, day, s));
    }
}

/// An undated bar changes no day.
proof fn lemma_skip_undated(all: Seq<OhlcBar>, i: int)
    requires
        0 <= i < all.len(),
        !dated(all[i]),
    ensures
        forall|d: Seq<char>| day_bars(all, d, i + 1) == day_bars(all, d, i),
        forall|d: Seq<char>| #[trigger] has_day(all, d, i + 1) == has_day(all, d, i),
{
    assert forall|d: Seq<char>| #[trigger] has_day(all, d, i + 1) == has_day(all, d, i) by {
        lemma_day_step(all, d, i);
    }
}

/// Whether `d` is among the texts of `seen`.
fn seen_day(seen: &Vec<String>, d: &str) -> (r: bool)
    ensures
        r == exists|q: int| 0 <= q < seen@.len() && #[trigger] seen@[q]@ == d@,
{
    let mut j: usize = 0;
    while j < seen.len()
        invariant
            j <= seen@.len(),
            forall|q: int| 0 <= q < j ==> #[trigger] seen@[q]@ != d@,
        decreases seen.len() - j,
    {
        if str_eq(seen[j].as_str(), d) {
            return true;
        }
        j = j + 1;
    }
    false
}

/// A fresh copy of a list of bars.
fn copy_bars(v: &Vec<OhlcBar>) -> (r: Vec<OhlcBar>)
    ensures
        r@ == v@,
{
    let mut out: Vec<OhlcBar> = Vec::new();
    let mut i: usize = 0;
    while i < v.len()
        invariant
            i <= v@.len(),
            out@ == v@.subrange(0, i as int),
        decreases v.len() - i,
    {
        out.push(v[i]);
        i = i + 1;
        proof {
            assert(out@ =~= v@.subrange(0, i as int));
        }
    }
    proof {
        assert(v@.subrange(0, v@.len() as int) =~= v@);
    }
    out
}

/// The days seen so far are exactly those with a dated bar before `n`.
pub open spec fn seen_exactly(seen: Seq<String>, all: Seq<OhlcBar>, n: int) -> bool {
    forall|d: Seq<char>| (exists|q: int| 0 <= q < seen.len() && #[trigger] seen[q]@ == d) == #[trigger] has_day(all, d, n)
}

/// Add the run `s..i` (all dated `day`) to the day's cached bars.
fn flush_run<G>(
    cache: &mut MemCache<G>,
    seen: &mut Vec<String>,
    ticker: Ticker,
    day: String,
    run: Vec<OhlcBar>,
    Ghost(all): Ghost<Seq<OhlcBar>>,
    Ghost(base): Ghost<Map<(Ticker, Seq<char>), Vec<OhlcBar>>>,
    Ghost(s): Ghost<int>,
    Ghost(i): Ghost<int>,
)
    requires
        0 <= s < i <= all.len(),
        run@ == all.subrange(s, i),
        forall|k: int| s <= k < i ==> dated(#[trigger] all[k]) && bar_date(all[k]) == day@,
        populated(base, old(cache).bars@, ticker, all, s),
        seen_exactly(old(seen)@, all, s),
    ensures
        populated(base, final(cache).bars@, ticker, all, i),
        seen_exactly(final(seen)@, all, i),
        final(cache).gex@ == old(cache).gex@,
        final(cache).bars_15m@ == old(cache).bars_15m@,
{
    proof {
        lemma_run(all, day@, s, i);
    }
    let was_seen = seen_day(seen, day.as_str());
    let ghost pre = cache.bars@;
    if was_seen {
        proof {
            assert(has_day(all, day@, s));
        }
        let mut merged = match get_bars(cache, ticker, day.as_str()) {
            Some(prev) => copy_bars(prev),
            None => Vec::new(),
        };
        let ghost prev = merged@;
        let mut r = run;
        merged.append(&mut r);
        proof {
            assert(merged@ == day_bars(all, day@, i));
        }
        put_bars(cache, ticker, day.as_str(), merged);
        proof {
            assert(cache.bars@.remove((ticker, day@)) =~= pre.remove((ticker, day@)));
        }
    } else {
        proof {
            assert(!has_day(all, day@, s));
            lemma_no_day(all, day@, s);
            assert(run@ =~= day_bars(all, day@, i));
        }
        put_bars(cache, ticker, day.as_str(), run);
        proof {
            assert(cache.bars@.remove((ticker, day@)) =~= pre.remove((ticker, day@)));
        }
        let ghost pre_seen = seen@;
        seen.push(day);
        proof {
            assert forall|d: Seq<char>| (exists|q: int| 0 <= q < seen@.len() && #[trigger] seen@[q]@ == d)
                == #[trigger] has_day(all, d, i) by {
                if d == seen@[pre_seen.len() as int]@ {
                } else {
                    if exists|q: int| 0 <= q < seen@.len() && #[trigger] seen@[q]@ == d {
                        let q = choose|q: int| 0 <= q < seen@.len() && #[trigger] seen@[q]@ == d;
                        assert(pre_seen[q]@ == d);
                    }
                    if exists|q: int| 0 <= q < pre_seen.len() && #[trigger] pre_seen[q]@ == d {
                        let q = choose|q: int| 0 <= q < pre_seen.len() && #[trigger] pre_seen[q]@ == d;
                        assert(seen@[q]@ == d);
                    }
                }
            }
        }
    }
    proof {
        lemma_flush_populated(base, pre, cache.bars@, ticker, all, day@, s, i);
    }
}

/// Setting the run's day to its bars up to `i` extends `populated` from `s`
/// to `i`.
proof fn lemma_flush_populated(
    base: Map<(Ticker, Seq<char>), Vec<OhlcBar>>,
    pre: Map<(Ticker, Seq<char>), Vec<OhlcBar>>,
    new: Map<(Ticker, Seq<char>), Vec<OhlcBar>>,
    ticker: Ticker,
    all: Seq<OhlcBar>,
    day: Seq<char>,
    s: int,
    i: int,
)
    requires
        0 <= s < i <= all.len(),
        populated(base, pre, ticker, all, s),
        new.contains_key((ticker, day)),
        new[(ticker, day)]@ == day_bars(all, day, i),
        new.remove((ticker, day)) == pre.remove((ticker, day)),
        forall|d: Seq<char>| d != day ==> day_bars(all, d, i) == day_bars(all, d, s),
        forall|d: Seq<char>| d != day ==> #[trigger] has_day(all, d, i) == has_day(all, d, s),
        has_day(all, day, i),
    ensures
        populated(base, new, ticker, all, i),
{
    assert forall|d: Seq<char>| #[trigger] has_day(all, d, i) implies new.contains_key((ticker, d)) && new[(
        ticker,
        d,
    )]@ == day_bars(all, d, i) by {
        if d != day {
            assert(has_day(all, d, s));
            assert(pre.contains_key((ticker, d)) && pre[(ticker, d)]@ == day_bars(all, d, s));
            assert((ticker, d) != (ticker, day));
            assert(pre.remove((ticker, day)).contains_key((ticker, d)));
            assert(new.remove((ticker, day)).contains_key((ticker, d)));
            assert(new.remove((ticker, day))[(ticker, d)] == pre.remove((ticker, day))[(ticker, d)]);
            assert(new.contains_key((ticker, d)));
            assert(new.remove((ticker, day))[(ticker, d)] == new[(ticker, d)]);
            assert(pre.remove((ticker, day))[(ticker, d)] == pre[(ticker, d)]);
            assert(new[(ticker, d)] == pre[(ticker, d)]);
            assert(day_bars(all, d, i) == day_bars(all, d, s));
        }
    }
    assert forall|k: (Ticker, Seq<char>)| !(k.0 == ticker && has_day(all, k.1, i)) implies (
    #[trigger] new.contains_key(k) == base.contains_key(k) && (base.contains_key(k) ==> new[k] == base[k])) by {
        if k.0 == ticker && k.1 != day {
            assert(!has_day(all, k.1, s));
        }
        assert(k != (ticker, day));
        assert(pre.remove((ticker, day)).contains_key(k) == pre.contains_key(k));
        assert(new.remove((ticker, day)).contains_key(k) == new.contains_key(k));
        if new.contains_key(k) {
            assert(new.remove((ticker, day))[k] == new[k]);
            assert(pre.remove((ticker, day))[k] == pre[k]);
        }
    }
}

/// Put each dated bar of `all` into the day cache of `ticker`, replacing
/// what was cached for those days (the bars of one day keep their order).
fn populate_bars<G>(cache: &mut MemCache<G>, ticker: Ticker, all: Vec<OhlcBar>)
    ensures
        populated(old(cache).bars@, final(cache).bars@, ticker, all@, all@.len() as int),
        final(cache).gex@ == old(cache).gex@,
        final(cache).bars_15m@ == old(cache).bars_15m@,
{
    let ghost a = all@;
    let ghost base = cache.bars@;
    let n = all.len();
    let mut seen: Vec<String> = Vec::new();
    let mut run: Vec<OhlcBar> = Vec::new();
    let mut run_day = String::new();
    let mut s: usize = 0;
    let mut i: usize = 0;
    proof {
        assert forall|d: Seq<char>| (exists|q: int| 0 <= q < seen@.len() && #[trigger] seen@[q]@ == d)
            == #[trigger] has_day(a, d, 0) by {}
        assert forall|k: (Ticker, Seq<char>)| !(k.0 == ticker && has_day(a, k.1, 0)) implies (
        #[trigger] cache.bars@.contains_key(k) == base.contains_key(k) && (base.contains_key(k) ==> cache.bars@[k] == base[k])) by {}
    }
    while i < n
        invariant
            n == a.len(),
            a == all@,
            s <= i <= n,
            run@ == a.subrange(s as int, i as int),
            forall|k: int| s <= k < i ==> dated(#[trigger] a[k]) && bar_date(a[k]) == run_day@,
            populated(base, cache.bars@, ticker, a, s as int),
            seen_exactly(seen@, a, s as int),
            cache.gex@ == old(cache).gex@,
            cache.bars_15m@ == old(cache).bars_15m@,
        decreases n - i,
    {
        match bar_date_text(&all[i]) {
            None => {
                if run.len() > 0 {
                    let mut r: Vec<OhlcBar> = Vec::new();
                    std::mem::swap(&mut r, &mut run);
                    let d = owned(run_day.as_str());
                    flush_run(cache, &mut seen, ticker, d, r, Ghost(a), Ghost(base), Ghost(s as int), Ghost(i as int));
                }
                proof {
                    lemma_skip_undated(a, i as int);
                    assert(populated(base, cache.bars@, ticker, a, i + 1));
                }
                s = i + 1;
                run = Vec::new();
            },
            Some(t) => {
                if run.len() > 0 && str_eq(t.as_str(), run_day.as_str()) {
                    run.push(all[i]);
                    proof {
                        assert(run@ =~= a.subrange(s as int, i + 1));
                    }
                } else {
                    if run.len() > 0 {
                        let mut r: Vec<OhlcBar> = Vec::new();
                        std::mem::swap(&mut r, &mut run);
                        let d = owned(run_day.as_str());
                        flush_run(cache, &mut seen, ticker, d, r, Ghost(a), Ghost(base), Ghost(s as int), Ghost(i as int));
                    }
                    s = i;
                    run = Vec::new();
                    run.push(all[i]);
                    run_day = t;
                    proof {
                        assert(run@ =~= a.subrange(s as int, i + 1));
                    }
                }
            },
        }
        i = i + 1;
    }
    if run.len() > 0 {
        flush_run(cache, &mut seen, ticker, run_day, run, Ghost(a), Ghost(base), Ghost(s as int), Ghost(n as int));
    }
}

/// The 1-minute bars cached for `(ticker, date)`, after reading the ticker's
/// whole bar cache with `read_all` once when they are missing.
fn load_bars_1m_cached<G, F: FnOnce() -> Option<Vec<OhlcBar>>>(
    cache: &mut MemCache<G>,
    loaded: &mut Store<Ticker, bool>,
    ticker: Ticker,
    date: &str,
    read_all: F,
)
    requires
        read_all.requires(()),
    ensures
        loads_day_bars(
            old(cache).bars@,
            final(cache).bars@,
            old(loaded)@,
            final(loaded)@,
            ticker,
            date@,
            |r: Option<Vec<OhlcBar>>| read_all.ensures((), r),
        ),
        final(cache).gex@ == old(cache).gex@,
        final(cache).bars_15m@ == old(cache).bars_15m@,
{
    let have = match get_bars(cache, ticker, date) {
        Some(_) => true,
        None => false,
    };
    if have || loaded.get(&ticker).is_some() {
        return;
    }
    let got = read_all();
    let ghost g = got;
    let ghost before = cache.bars@;
    match got {
        Some(all) => {
            populate_bars(cache, ticker, all);
        },
        None => {},
    }
    loaded.put(ticker, true);
    proof {
        assert((|r: Option<Vec<OhlcBar>>| read_all.ensures((), r))(g));
    }
}

/// The loading step for a day's bars: when `(t, d)` is not cached and `t` was
/// not read before, `t` is marked read and the cache holds what the read gave
/// (each of its dated days replaced); otherwise nothing changes.
pub open spec fn loads_day_bars(
    old_bars: Map<(Ticker, Seq<char>), Vec<OhlcBar>>,
    new_bars: Map<(Ticker, Seq<char>), Vec<OhlcBar>>,
    old_loaded: Map<Ticker, bool>,
    new_loaded: Map<Ticker, bool>,
    t: Ticker,
    d: Seq<char>,
    read: spec_fn(Option<Vec<OhlcBar>>) -> bool,
) -> bool {
    if old_bars.contains_key((t, d)) || old_loaded.contains_key(t) {
        new_bars == old_bars && new_loaded == old_loaded
    } else {
        &&& new_loaded == old_loaded.insert(t, true)
        &&& exists|got: Option<Vec<OhlcBar>>|
            #[trigger] read(got) && match got {
                Some(all) => populated(old_bars, new_bars, t, all@, all@.len() as int),
                None => new_bars == old_bars,
            }
    }
}

/// Whether a day's 1-minute bars are usable: present, not empty, and the
/// first one dated on that day.
pub open spec fn day_bars_usable(b: Option<Vec<OhlcBar>>, d: Seq<char>) -> bool {
    b matches Some(v) && v@.len() > 0 && dated(v@[0]) && bar_date(v@[0]) == d
}

/// Load a ticker's 1-minute bars of `date` (reading its whole bar cache with
/// `read_all` on first use) and its strategy-interval bars (resampled once
/// and then cached). Both are empty when the day has no bars or its first bar
/// belongs to another day.
pub fn load_day_bars_and_gex<G, F: FnOnce() -> Option<Vec<OhlcBar>>>(
    cache: &mut MemCache<G>,
    loaded: &mut Store<Ticker, bool>,
    ticker: Ticker,
    date: &str,
    read_all: F,
) -> (r: (Vec<OhlcBar>, Vec<OhlcBar>))
    requires
        read_all.requires(()),
    ensures
        loads_day_bars(
            old(cache).bars@,
            final(cache).bars@,
            old(loaded)@,
            final(loaded)@,
            ticker,
            date@,
            |g: Option<Vec<OhlcBar>>| read_all.ensures((), g),
        ),
        final(cache).gex@ == old(cache).gex@,
        ({
            let b = held(final(cache).bars@, ticker, date@);
            if day_bars_usable(b, date@) {
                let m = b->0@;
                &&& r.0@ == m
                &&& match held(old(cache).bars_15m@, ticker, date@) {
                    Some(c) => r.1@ == c@ && final(cache).bars_15m@ == old(cache).bars_15m@,
                    None => r.1@ == resampled(m, BAR_INTERVAL_MINUTES as int) && final(cache).bars_15m@.dom()
                        == old(cache).bars_15m@.dom().insert((ticker, date@)) && final(cache).bars_15m@[(
                        ticker,
                        date@,
                    )]@ == r.1@ && final(cache).bars_15m@.remove((ticker, date@)) == old(cache).bars_15m@.remove(
                        (ticker, date@),
                    ),
                }
            } else {
                r.0@.len() == 0 && r.1@.len() == 0 && final(cache).bars_15m@ == old(cache).bars_15m@
            }
        }),
{
    load_bars_1m_cached(cache, loaded, ticker, date, read_all);
    let bars_1m = match get_bars(cache, ticker, date) {
        Some(b) => copy_bars(b),
        None => return (Vec::new(), Vec::new()),
    };
    if bars_1m.len() == 0 {
        return (Vec::new(), Vec::new());
    }
    let first = match bar_date_text(&bars_1m[0]) {
        Some(t) => t,
        None => return (Vec::new(), Vec::new()),
    };
    if !str_eq(first.as_str(), date) {
        return (Vec::new(), Vec::new());
    }
    let bars_15m = match get_bars_15m(cache, ticker, date) {
        Some(c) => copy_bars(c),
        None => {
            let resampled_bars = resample_bars(bars_1m.as_slice(), BAR_INTERVAL_MINUTES);
            let stored = copy_bars(&resampled_bars);
            let ghost pre = cache.bars_15m@;
            put_bars_15m(cache, ticker, date, stored);
            proof {
                assert(cache.bars_15m@.dom() =~= pre.dom().insert((ticker, date@)));
                assert(cache.bars_15m@.remove((ticker, date@)) =~= pre.remove((ticker, date@)));
            }
            resampled_bars
        },
    };
    (bars_1m, bars_15m)
}

/// Tag each month's map with the ticker.
fn tag_months<G>(ticker: Ticker, months: Vec<(String, G)>) -> (r: Vec<(Ticker, String, G)>)
    ensures
        r@.len() == months@.len(),
        forall|k: int| 0 <= k < r@.len() ==> #[trigger] r@[k] == (ticker, months@[k].0, months@[k].1),
{
    let ghost all = months@;
    let mut stack = crate::data::mem_cache::reversed(months);
    let mut out: Vec<(Ticker, String, G)> = Vec::new();
    while stack.len() > 0
        invariant
            stack@.len() <= all.len(),
            forall|k: int| 0 <= k < stack@.len() ==> #[trigger] stack@[k] == all[all.len() - 1 - k],
            out@.len() == all.len() - stack@.len(),
            forall|k: int| 0 <= k < out@.len() ==> #[trigger] out@[k] == (ticker, all[k].0, all[k].1),
        decreases stack@.len(),
    {
        let (m, g) = stack.pop().unwrap();
        out.push((ticker, m, g));
    }
    out
}

/// The months of a ticker tagged with it, as a spec value.
pub open spec fn tagged<G>(t: Ticker, months: Seq<(String, G)>) -> Seq<(Ticker, String, G)> {
    months.map_values(|p: (String, G)| (t, p.0, p.1))
}

/// The GEX map of the month of `any_date_in_month` (its first seven bytes),
/// reading the ticker's whole GEX cache, grouped by month, with `read_all`
/// on first use.
pub fn load_month_gex<'a, G, F: FnOnce() -> Option<Vec<(String, G)>>>(
    cache: &'a mut MemCache<G>,
    loaded: &mut Store<Ticker, bool>,
    ticker: Ticker,
    any_date_in_month: &str,
    read_all: F,
) -> (r: Option<&'a G>)
    requires
        is_char_boundary_at(any_date_in_month, 7),
        read_all.requires(()),
    ensures
        ({
            let m = crate::data::cache::month_part(any_date_in_month);
            &&& deref_opt(r) == held(final(cache).gex@, ticker, m)
            &&& final(cache).bars@ == old(cache).bars@
            &&& final(cache).bars_15m@ == old(cache).bars_15m@
            &&& if old(cache).gex@.contains_key((ticker, m)) || old(loaded)@.contains_key(ticker) {
                final(cache).gex@ == old(cache).gex@ && final(loaded)@ == old(loaded)@
            } else {
                &&& final(loaded)@ == old(loaded)@.insert(ticker, true)
                &&& exists|got: Option<Vec<(String, G)>>|
                    #[trigger] read_all.ensures((), got) && match got {
                        Some(v) => final(cache).gex@ == put_all(old(cache).gex@, tagged(ticker, v@)),
                        None => final(cache).gex@ == old(cache).gex@,
                    }
            }
        }),
{
    let month = crate::data::cache::month_of_date(any_date_in_month);
    let have = match get_gex(cache, ticker, month) {
        Some(_) => true,
        None => false,
    };
    if !have && loaded.get(&ticker).is_none() {
        let got = read_all();
        let ghost g = got;
        match got {
            Some(v) => {
                let ghost vv = v@;
                let tagged_v = tag_months(ticker, v);
                proof {
                    assert(tagged_v@ =~= tagged(ticker, vv));
                }
                put_gex_bulk(cache, tagged_v);
            },
            None => {},
        }
        loaded.put(ticker, true);
        proof {
            assert(read_all.ensures((), g));
        }
    }
    get_gex(cache, ticker, month)
}

/// Unix-second range `[start, end)` of the UTC day that `date` names
/// (`YYYY-MM-DD`). The date must parse.
pub fn day_epoch_range(date: &str) -> (r: (i64, i64))
    requires
        parse_iso_day(date@) is Some,
    ensures
        r.0 == day_start_secs(parse_iso_day(date@)->0 as int),
        r.1 == r.0 + SECS_PER_DAY,
{
    let d = parse_day(date).unwrap();
    let start = day_start_unix(d);
    (start, start + SECS_PER_DAY)
}

/// `day_epoch_range` of `date` where it parses, `None` where it does not.
pub fn try_day_epoch_range(date: &str) -> (r: Option<(i64, i64)>)
    ensures
        r is None <==> parse_iso_day(date@) is None,
        parse_iso_day(date@) matches Some(d) ==> r == Some((
            day_start_secs(d as int) as i64,
            (day_start_secs(d as int) + SECS_PER_DAY) as i64,
        )),
{
    match parse_day(date) {
        Some(_) => Some(day_epoch_range(date)),
        None => None,
    }
}

/// A bar whose four prices are one price (as bars filled in for a missing
/// minute are).
pub open spec fn flat_bar(b: OhlcBar) -> bool {
    b.open == b.high && b.high == b.low && b.low == b.close
}

/// Whether `bars` is non-empty and every bar in it is flat.
pub fn bars_are_synthesized(bars: &[OhlcBar]) -> (r: bool)
    ensures
        r == (bars@.len() > 0 && forall|k: int| 0 <= k < bars@.len() ==> #[trigger] flat_bar(bars@[k])),
{
    if bars.len() == 0 {
        return false;
    }
    let mut k: usize = 0;
    while k < bars.len()
        invariant
            k <= bars@.len(),
            forall|j: int| 0 <= j < k ==> #[trigger] flat_bar(bars@[j]),
        decreases bars.len() - k,
    {
        let b = &bars[k];
        if !(b.open == b.high && b.high == b.low && b.low == b.close) {
            proof {
                assert(!flat_bar(bars@[k as int]));
            }
            return false;
        }
        k = k + 1;
    }
    true
}

} // verus!
