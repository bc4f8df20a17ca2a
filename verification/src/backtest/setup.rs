//! Backtest setup helpers: grouping trading days by calendar month, and
//! deciding what a month still needs downloaded or built.

use vstd::prelude::*;
use crate::backtest::calendar::texts;
use crate::config::strategy::StrategyConfig;
use crate::dates::{format_day, in_day_range, iso_day_text};
use crate::text::{lex_le, str_eq, str_le};

verus! {

/// The `YYYY-MM` part of a `YYYY-MM-DD` text.
pub open spec fn month_of(day: Seq<char>) -> Seq<char> {
    day.subrange(0, 7)
}

/// Consecutive days grouped into runs sharing the same month.
pub open spec fn month_groups(days: Seq<Seq<char>>) -> Seq<Seq<Seq<char>>>
    decreases days.len(),
{
    if days.len() == 0 {
        seq![]
    } else {
        let g = month_groups(days.drop_last());
        let d = days.last();
        if g.len() > 0 && month_of(g.last()[0]) == month_of(d) {
            g.update(g.len() - 1, g.last().push(d))
        } else {
            g.push(seq![d])
        }
    }
}

/// The characters of each string of each group.
pub open spec fn group_texts(v: Seq<Vec<String>>) -> Seq<Seq<Seq<char>>> {
    v.map_values(|g: Vec<String>| texts(g@))
}

/// A day text long enough to have a month part.
pub open spec fn has_month(day: Seq<char>) -> bool {
    day.len() >= 7
}

fn same_month(a: &str, b: &str) -> (r: bool)
    requires
        has_month(a@),
        has_month(b@),
    ensures
        r == (month_of(a@) == month_of(b@)),
{
    let mut i: usize = 0;
    while i < 7
        invariant
            i <= 7,
            has_month(a@),
            has_month(b@),
            forall|j: int| 0 <= j < i ==> a@[j] == b@[j],
        decreases 7 - i,
    {
        if a.get_char(i) != b.get_char(i) {
            assert(month_of(a@)[i as int] != month_of(b@)[i as int]);
            return false;
        }
        i = i + 1;
    }
    assert(month_of(a@) =~= month_of(b@));
    true
}

/// Group consecutive trading days (`YYYY-MM-DD`) into runs of the same month.
pub fn group_by_month(days: &[String]) -> (r: Vec<Vec<String>>)
    requires
        forall|i: int| 0 <= i < days@.len() ==> has_month(#[trigger] days@[i]@),
    ensures
        group_texts(r@) == month_groups(texts(days@)),
{
    let mut groups: Vec<Vec<String>> = Vec::new();
    let mut cur: Vec<String> = Vec::new();
    let mut k: usize = 0;
    while k < days.len()
        invariant
            k <= days@.len(),
            forall|i: int| 0 <= i < days@.len() ==> has_month(#[trigger] days@[i]@),
            forall|i: int| 0 <= i < cur@.len() ==> has_month(#[trigger] cur@[i]@),
            cur@.len() == 0 ==> k == 0 && groups@.len() == 0,
            cur@.len() > 0 ==> group_texts(groups@).push(texts(cur@)) == month_groups(texts(days@.subrange(0, k as int))),
        decreases days@.len() - k,
    {
        let ghost pre = texts(days@.subrange(0, k as int));
        let ghost nxt = texts(days@.subrange(0, k + 1));
        proof {
            assert(nxt.drop_last() =~= pre);
            assert(nxt.last() == days@[k as int]@);
        }
        if cur.len() > 0 && !same_month(cur[0].as_str(), days[k].as_str()) {
            let ghost old_groups = groups@;
            let ghost old_cur = cur@;
            groups.push(cur);
            cur = Vec::new();
            cur.push(days[k].clone());
            proof {
                assert(group_texts(groups@) =~= group_texts(old_groups).push(texts(old_cur)));
                assert(texts(cur@) =~= seq![days@[k as int]@]);
                assert(month_groups(pre).last()[0] == texts(old_cur)[0]);
                assert(texts(old_cur)[0] == old_cur[0]@);
                assert(month_of(month_groups(pre).last()[0]) != month_of(nxt.last()));
                assert(month_groups(nxt) == month_groups(pre).push(seq![nxt.last()]));
            }
        } else {
            let ghost old_cur = cur@;
            cur.push(days[k].clone());
            proof {
                assert(texts(cur@) =~= texts(old_cur).push(days@[k as int]@));
                if old_cur.len() > 0 {
                    assert(month_groups(pre).last() == texts(old_cur));
                    assert(texts(old_cur)[0] == old_cur[0]@);
                    assert(month_of(month_groups(pre).last()[0]) == month_of(nxt.last()));
                    assert(month_groups(nxt) == month_groups(pre).update(
                        month_groups(pre).len() - 1, month_groups(pre).last().push(nxt.last())));
                    assert(group_texts(groups@).push(texts(cur@)) =~= month_groups(pre).update(
                        month_groups(pre).len() - 1, month_groups(pre).last().push(nxt.last())));
                } else {
                    assert(pre =~= Seq::<Seq<char>>::empty());
                    assert(texts(old_cur) =~= Seq::<Seq<char>>::empty());
                    assert(texts(cur@) =~= seq![nxt.last()]);
                    assert(group_texts(groups@) =~= Seq::<Seq<Seq<char>>>::empty());
                    assert(month_groups(pre) =~= Seq::<Seq<Seq<char>>>::empty());
                    assert(month_groups(nxt) == month_groups(pre).push(seq![nxt.last()]));
                    assert(group_texts(groups@).push(texts(cur@)) =~= month_groups(pre).push(seq![nxt.last()]));
                }
            }
        }
        k = k + 1;
    }
    proof {
        assert(days@.subrange(0, days@.len() as int) =~= days@);
    }
    if cur.len() > 0 {
        let ghost old_groups = groups@;
        let ghost old_cur = cur@;
        groups.push(cur);
        proof {
            assert(group_texts(groups@) =~= group_texts(old_groups).push(texts(old_cur)));
        }
    } else {
        proof {
            assert(texts(days@) =~= Seq::<Seq<char>>::empty());
            assert(group_texts(groups@) =~= Seq::<Seq<Seq<char>>>::empty());
        }
    }
    groups
}

/// Grouping by month loses and reorders nothing: the groups concatenate back
/// to the input, every group is non-empty and holds one month only, and
/// neighbouring groups hold different months.
pub proof fn law_month_groups_partition(days: Seq<Seq<char>>)
    ensures
        month_groups(days).flatten() == days,
        forall|g: int| 0 <= g < month_groups(days).len() ==> #[trigger] month_groups(days)[g].len() > 0,
        forall|g: int, i: int|
            0 <= g < month_groups(days).len() && 0 <= i < month_groups(days)[g].len() ==>
                month_of(#[trigger] month_groups(days)[g][i]) == month_of(month_groups(days)[g][0]),
        forall|g: int|
            0 < g < month_groups(days).len() ==>
                month_of(#[trigger] month_groups(days)[g][0]) != month_of(month_groups(days)[g - 1][0]),
    decreases days.len(),
{
    broadcast use Seq::lemma_flatten_push;
    if days.len() > 0 {
        let p = days.drop_last();
        let g = month_groups(p);
        let d = days.last();
        law_month_groups_partition(p);
        if g.len() > 0 && month_of(g.last()[0]) == month_of(d) {
            let lastg = g.last();
            let front = g.drop_last();
            assert(g =~= front.push(lastg));
            assert(month_groups(days) =~= front.push(lastg.push(d)));
            assert(g.flatten() == front.flatten() + lastg);
            assert(month_groups(days).flatten() == front.flatten() + lastg.push(d));
            assert(days =~= p.push(d));
            assert(front.flatten() + lastg.push(d) =~= (front.flatten() + lastg).push(d));
        } else {
            assert(month_groups(days) == g.push(seq![d]));
            assert(days =~= p + seq![d]);
        }
    }
}

/// What one ticker's month still needs.
pub struct MonthPlan {
    /// Days whose data must be fetched: no cached bars, or (while the month's
    /// GEX is not built) no raw options file.
    pub missing_days: Vec<String>,
    /// The month's GEX must be dropped (new data arrived).
    pub delete_gex: bool,
    /// The month's GEX must be built.
    pub build_gex: bool,
}

/// Some text of `v` equals `d`.
pub open spec fn has_text(v: Seq<String>, d: Seq<char>) -> bool {
    exists|k: int| 0 <= k < v.len() && #[trigger] v[k]@ == d
}

/// The first `n` days that need fetching, in order.
pub open spec fn days_missing(
    days: Seq<String>,
    bar_dates: Seq<String>,
    gex_cached: bool,
    raw_exists: Seq<bool>,
    n: int,
) -> Seq<Seq<char>>
    decreases n,
{
    if n <= 0 {
        Seq::empty()
    } else {
        let r = days_missing(days, bar_dates, gex_cached, raw_exists, n - 1);
        if !has_text(bar_dates, days[n - 1]@) || (!gex_cached && !raw_exists[n - 1]) {
            r.push(days[n - 1]@)
        } else {
            r
        }
    }
}

/// Whether `d` is among `v`.
pub(crate) fn contains_text(v: &[String], d: &str) -> (r: bool)
    ensures
        r == has_text(v@, d@),
{
    let mut k: usize = 0;
    while k < v.len()
        invariant
            k <= v@.len(),
            forall|j: int| 0 <= j < k ==> #[trigger] v@[j]@ != d@,
        decreases v.len() - k,
    {
        if str_eq(v[k].as_str(), d) {
            return true;
        }
        k = k + 1;
    }
    false
}

/// Plan one ticker's month: the cached bar dates, whether its GEX month is
/// built, and for each day whether its raw options file exists.
pub fn plan_month_download(month_days: &[String], bar_dates: &[String], gex_cached: bool, raw_exists: &[bool]) -> (r: MonthPlan)
    requires
        raw_exists@.len() == month_days@.len(),
    ensures
        r.missing_days@.map_values(|s: String| s@) == days_missing(
            month_days@,
            bar_dates@,
            gex_cached,
            raw_exists@,
            month_days@.len() as int,
        ),
        r.delete_gex == (r.missing_days@.len() > 0),
        r.build_gex == (!gex_cached || r.missing_days@.len() > 0),
{
    let mut missing: Vec<String> = Vec::new();
    let mut i: usize = 0;
    proof {
        assert(missing@.map_values(|s: String| s@) =~= Seq::<Seq<char>>::empty());
    }
    while i < month_days.len()
        invariant
            i <= month_days@.len(),
            raw_exists@.len() == month_days@.len(),
            missing@.map_values(|s: String| s@) == days_missing(month_days@, bar_dates@, gex_cached, raw_exists@, i as int),
        decreases month_days.len() - i,
    {
        let ghost pre = missing@;
        if !contains_text(bar_dates, month_days[i].as_str()) || (!gex_cached && !raw_exists[i]) {
            missing.push(month_days[i].clone());
            proof {
                assert(missing@.map_values(|s: String| s@) =~= pre.map_values(|s: String| s@).push(month_days@[i as int]@));
            }
        }
        i = i + 1;
    }
    let any = missing.len() > 0;
    MonthPlan { missing_days: missing, delete_gex: any, build_gex: !gex_cached || any }
}

/// How many leading days of `days`, from index `i` on, sort before `x`.
pub open spec fn leading_before(days: Seq<String>, x: Seq<char>, i: int) -> int
    decreases days.len() - i,
{
    if 0 <= i < days.len() && !lex_le(x, days[i]@) {
        leading_before(days, x, i + 1)
    } else {
        i
    }
}

/// Where a backtest's trading starts: the first trading date (the start
/// date plus the warmup's calendar days) and how many of the range's
/// trading days come before it.
#[derive(Debug, Clone, Copy, PartialEq, Eq)]
pub struct BacktestStart {
    pub first_trading: i32,
    pub warmup_day_count: usize,
}

/// Split a backtest's trading days (in date order) at the end of the warmup
/// that follows the start day `start`. `None` when no day falls in the
/// warmup or no day is left to trade: the range is too short.
pub fn backtest_start(config: &StrategyConfig, all_days: &[String], start: i32) -> (r: Option<BacktestStart>)
    requires
        in_day_range(start + 12),
    ensures
        ({
            let ft = start + 12;
            let k = leading_before(all_days@, iso_day_text(ft as i32), 0);
            &&& r is None <==> (k == 0 || k >= all_days@.len())
            &&& r matches Some(b) ==> b.first_trading == ft && b.warmup_day_count == k
        }),
{
    let first_trading = start + config.warmup_gex_calendar_days() as i32;
    let first_text = format_day(first_trading);
    let mut k: usize = 0;
    while k < all_days.len() && !str_le(first_text.as_str(), all_days[k].as_str())
        invariant
            k <= all_days@.len(),
            first_text@ == iso_day_text(first_trading),
            leading_before(all_days@, first_text@, k as int) == leading_before(all_days@, first_text@, 0),
        decreases all_days.len() - k,
    {
        k = k + 1;
    }
    if k == 0 || k >= all_days.len() {
        None
    } else {
        Some(BacktestStart { first_trading, warmup_day_count: k })
    }
}

} // verus!
