//! Stock-split adjustment ratios between split-adjusted bars and historical
//! option prices.

use vstd::prelude::*;
use crate::dates::{parse_day, parse_iso_day};
use crate::text::str_eq;
use crate::types::OhlcBar;

verus! {

/// Known stock splits: (ticker, effective date, ratio numerator, ratio denominator).
/// Bars are adjusted for all splits while option greeks use the historical
/// price, so bars of a date are scaled by every split after that date.
pub const KNOWN_SPLITS: [(&'static str, &'static str, u64, u64); 6] = [
    ("AAPL", "2014-06-09", 7, 1),
    ("AAPL", "2020-08-31", 4, 1),
    ("GOOG", "2022-07-15", 20, 1),
    ("GOOGL", "2022-07-15", 20, 1),
    ("GE", "2021-08-02", 1, 8),
    ("WMT", "2024-02-26", 3, 1),
];

/// Split `k` is for `ticker` and takes effect after day `date`.
pub open spec fn split_applies(k: int, ticker: Seq<char>, date: i32) -> bool {
    KNOWN_SPLITS[k].0@ == ticker && match parse_iso_day(KNOWN_SPLITS[k].1@) {
        Some(sd) => date < sd,
        None => false,
    }
}

/// Numerator of the product of the ratios of the first `n` splits that apply.
pub open spec fn split_num(ticker: Seq<char>, date: i32, n: int) -> int
    decreases n,
{
    if n <= 0 {
        1
    } else {
        split_num(ticker, date, n - 1) * if split_applies(n - 1, ticker, date) { KNOWN_SPLITS[n - 1].2 as int } else { 1 }
    }
}

/// Denominator of the product of the ratios of the first `n` splits that apply.
pub open spec fn split_den(ticker: Seq<char>, date: i32, n: int) -> int
    decreases n,
{
    if n <= 0 {
        1
    } else {
        split_den(ticker, date, n - 1) * if split_applies(n - 1, ticker, date) { KNOWN_SPLITS[n - 1].3 as int } else { 1 }
    }
}

spec fn pow_bound(base: int, n: int) -> int
    decreases n,
{
    if n <= 0 { 1 } else { base * pow_bound(base, n - 1) }
}

/// Cumulative split ratio for `ticker` on day `date`, as `(numerator,
/// denominator)`: the product of the ratios of all its splits after `date`.
pub fn split_ratio_for_date(ticker: &str, date: i32) -> (r: (u64, u64))
    ensures
        r.0 == split_num(ticker@, date, 6),
        r.1 == split_den(ticker@, date, 6),
{
    let mut num: u64 = 1;
    let mut den: u64 = 1;
    let mut i: usize = 0;
    proof {
        reveal_with_fuel(pow_bound, 7);
        assert(pow_bound(20, 6) == 64_000_000);
        assert(pow_bound(8, 6) == 262_144);
    }
    while i < 6
        invariant
            i <= 6,
            num == split_num(ticker@, date, i as int),
            den == split_den(ticker@, date, i as int),
            1 <= num <= pow_bound(20, i as int),
            1 <= den <= pow_bound(8, i as int),
            pow_bound(20, 6) == 64_000_000,
            pow_bound(8, 6) == 262_144,
        decreases 6 - i,
    {
        let (t, d, n, q) = KNOWN_SPLITS[i];
        proof {
            lemma_pow_bound_pos(20, i as int);
            lemma_pow_bound_pos(8, i as int);
            lemma_pow_bound_le6(20, i as int + 1);
            lemma_pow_bound_le6(8, i as int + 1);
        }
        if str_eq(t, ticker) {
            match parse_day(d) {
                Some(sd) => {
                    if date < sd {
                        assert(1 <= num * n <= pow_bound(20, i as int) * 20) by (nonlinear_arith)
                            requires num <= pow_bound(20, i as int), 1 <= n <= 20, 1 <= num;
                        assert(1 <= den * q <= pow_bound(8, i as int) * 8) by (nonlinear_arith)
                            requires den <= pow_bound(8, i as int), 1 <= q <= 8, 1 <= den;
                        num = num * n;
                        den = den * q;
                    }
                },
                None => {},
            }
        }
        i = i + 1;
    }
    (num, den)
}

proof fn lemma_pow_bound_pos(base: int, n: int)
    requires
        base >= 1,
    ensures
        pow_bound(base, n) >= 1,
        n >= 0 ==> pow_bound(base, n + 1) == base * pow_bound(base, n),
        n >= 0 ==> pow_bound(base, n) <= pow_bound(base, n + 1),
    decreases n,
{
    if n > 0 {
        lemma_pow_bound_pos(base, n - 1);
    }
    if n >= 0 {
        assert(pow_bound(base, n + 1) == base * pow_bound(base, n));
        assert(pow_bound(base, n) <= base * pow_bound(base, n)) by (nonlinear_arith)
            requires base >= 1, pow_bound(base, n) >= 1;
        assert(base * pow_bound(base, n) >= 1) by (nonlinear_arith)
            requires base >= 1, pow_bound(base, n) >= 1;
    }
}

proof fn lemma_pow_bound_le6(base: int, n: int)
    requires
        base >= 1,
        0 <= n <= 6,
    ensures
        pow_bound(base, n) <= pow_bound(base, 6),
    decreases 6 - n,
{
    if n < 6 {
        lemma_pow_bound_le6(base, n + 1);
        lemma_pow_bound_pos(base, n);
    }
}

/// A split ratio `num / den` within 1% of 1 (applying it changes nothing).
pub open spec fn ratio_near_one(num: u64, den: u64) -> bool {
    let diff = if num >= den { num - den } else { den - num };
    diff * 100 < den
}

/// A price scaled by `num / den`, rounded down to a whole tick.
pub open spec fn scaled_price(p: i64, num: u64, den: u64) -> int {
    (p * num) as int / den as int
}

/// Scaling a bar's prices by `num / den` stays within `i64`.
pub open spec fn scalable(b: OhlcBar, num: u64, den: u64) -> bool {
    &&& i64::MIN <= scaled_price(b.open, num, den) <= i64::MAX
    &&& i64::MIN <= scaled_price(b.high, num, den) <= i64::MAX
    &&& i64::MIN <= scaled_price(b.low, num, den) <= i64::MAX
    &&& i64::MIN <= scaled_price(b.close, num, den) <= i64::MAX
}

/// A bar with its prices scaled by `num / den` (time and volume kept).
pub open spec fn split_adjusted(b: OhlcBar, num: u64, den: u64) -> OhlcBar {
    OhlcBar {
        timestamp: b.timestamp,
        open: scaled_price(b.open, num, den) as i64,
        high: scaled_price(b.high, num, den) as i64,
        low: scaled_price(b.low, num, den) as i64,
        close: scaled_price(b.close, num, den) as i64,
        volume: b.volume,
    }
}

/// `v / d` rounded down, for a positive `d`.
fn floor_div(v: i128, d: u64) -> (r: i128)
    requires
        d > 0,
        v > i128::MIN,
    ensures
        r == v as int / d as int,
{
    if v >= 0 {
        ((v as u128) / (d as u128)) as i128
    } else {
        let m: u128 = (0 - v) as u128;
        let q: u128 = (m + (d as u128) - 1) / (d as u128);
        proof {
            assert(q * d <= m + d - 1 < q * d + d) by (nonlinear_arith)
                requires
                    q == (m + d - 1) / (d as int),
                    d > 0,
            ;
            assert(m == -(v as int));
            assert(q <= m) by (nonlinear_arith)
                requires
                    q * d <= m + d - 1,
                    d >= 1,
                    m >= 1,
            ;
            let r: int = -(q as int);
            assert(r * d == -(q * d)) by (nonlinear_arith)
                requires
                    r == -(q as int),
            ;
            assert(r * d <= (v as int) && (v as int) < r * d + d);
            vstd::arithmetic::div_mod::lemma_fundamental_div_mod_converse_div(
                v as int,
                d as int,
                r,
                v as int - r * d,
            );
        }
        0 - (q as i128)
    }
}

/// A price scaled by `num / den`.
fn scale_price(p: i64, num: u64, den: u64) -> (r: i64)
    requires
        den > 0,
        i64::MIN <= scaled_price(p, num, den) <= i64::MAX,
    ensures
        r == scaled_price(p, num, den),
{
    assert(i128::MIN < p * num <= i128::MAX) by (nonlinear_arith)
        requires
            i64::MIN <= p <= i64::MAX,
            0 <= num <= u64::MAX,
    ;
    let v: i128 = (p as i128) * (num as i128);
    floor_div(v, den) as i64
}

/// Scale bar prices by a split ratio `num / den` so split-adjusted bars match
/// historical option prices; a ratio within 1% of 1, or no bars, leaves them.
pub fn apply_split_adjustment(bars: &mut Vec<OhlcBar>, num: u64, den: u64)
    requires
        den > 0,
        forall|i: int| 0 <= i < old(bars)@.len() ==> scalable(#[trigger] old(bars)@[i], num, den),
    ensures
        ratio_near_one(num, den) || old(bars)@.len() == 0 ==> final(bars)@ == old(bars)@,
        !(ratio_near_one(num, den) || old(bars)@.len() == 0) ==> final(bars)@ == old(bars)@.map_values(
            |b: OhlcBar| split_adjusted(b, num, den),
        ),
{
    let diff: u64 = if num >= den { num - den } else { den - num };
    if (diff as u128) * 100 < (den as u128) || bars.len() == 0 {
        return;
    }
    let ghost orig = bars@;
    let mut i: usize = 0;
    while i < bars.len()
        invariant
            den > 0,
            bars@.len() == orig.len(),
            i <= bars@.len(),
            forall|k: int| 0 <= k < orig.len() ==> scalable(#[trigger] orig[k], num, den),
            forall|k: int| 0 <= k < i ==> #[trigger] bars@[k] == split_adjusted(orig[k], num, den),
            forall|k: int| i <= k < bars@.len() ==> #[trigger] bars@[k] == orig[k],
        decreases bars.len() - i,
    {
        let b = bars[i];
        proof {
            assert(scalable(orig[i as int], num, den));
        }
        let nb = OhlcBar {
            timestamp: b.timestamp,
            open: scale_price(b.open, num, den),
            high: scale_price(b.high, num, den),
            low: scale_price(b.low, num, den),
            close: scale_price(b.close, num, den),
            volume: b.volume,
        };
        bars.set(i, nb);
        i = i + 1;
    }
    proof {
        assert(bars@ =~= orig.map_values(|b: OhlcBar| split_adjusted(b, num, den)));
    }
}

/// Whether some listed split names exactly the ticker `x`.
pub open spec fn listed_ticker(x: Seq<char>) -> bool {
    exists|k: int| 0 <= k < 6 && (#[trigger] KNOWN_SPLITS[k]).0@ == x
}

/// Product of the numerators (`num`) or denominators of the first `n` listed
/// splits whose ticker text equals `x` exactly and that take effect after
/// `date`.
pub open spec fn exact_ticker_product(x: Seq<char>, date: i32, n: int, num: bool) -> int
    decreases n,
{
    if n <= 0 {
        1
    } else {
        let e = KNOWN_SPLITS[n - 1];
        let after = match parse_iso_day(e.1@) {
            Some(sd) => date < sd,
            None => false,
        };
        exact_ticker_product(x, date, n - 1, num) * if e.0@ == x && after {
            if num { e.2 as int } else { e.3 as int }
        } else {
            1
        }
    }
}

/// A ticker's split ratio is made of its own splits only: the product of the
/// ratios of the listed splits whose ticker text is exactly that ticker (not
/// one it merely starts with, or that starts with it) and that take effect
/// after the date; a ticker no split lists exactly has ratio 1:1.
pub proof fn law_split_ratio_exact_ticker(x: Seq<char>, date: i32)
    ensures
        split_num(x, date, 6) == exact_ticker_product(x, date, 6, true),
        split_den(x, date, 6) == exact_ticker_product(x, date, 6, false),
        !listed_ticker(x) ==> split_num(x, date, 6) == 1 && split_den(x, date, 6) == 1,
{
    lemma_split_exact(x, date, 6);
    if !listed_ticker(x) {
        lemma_split_unlisted(x, date, 6);
    }
}

proof fn lemma_split_exact(x: Seq<char>, date: i32, n: int)
    requires
        0 <= n <= 6,
    ensures
        split_num(x, date, n) == exact_ticker_product(x, date, n, true),
        split_den(x, date, n) == exact_ticker_product(x, date, n, false),
    decreases n,
{
    if n > 0 {
        lemma_split_exact(x, date, n - 1);
    }
}

proof fn lemma_split_unlisted(x: Seq<char>, date: i32, n: int)
    requires
        0 <= n <= 6,
        !listed_ticker(x),
    ensures
        split_num(x, date, n) == 1,
        split_den(x, date, n) == 1,
    decreases n,
{
    if n > 0 {
        lemma_split_unlisted(x, date, n - 1);
        assert(KNOWN_SPLITS[n - 1].0@ != x);
    }
}

} // verus!
