//! Helpers of the missed-entries report: time-window slicing of chart series,
//! spike-window lookup and the entry-time gate.

use vstd::prelude::*;
use crate::config::strategy::StrategyConfig;
use crate::dates::{new_york_clock, new_york_day_minute, new_york_local, MAX_INSTANT, MIN_INSTANT};
use super::state::{HasTime, SpikeWindow};

verus! {

/// Padding (seconds) added around a spike window when cutting a mini chart.
pub const PAD_SEC: i64 = 3600;

/// Indices of the items whose time lies in `[from, to]`, in order.
pub open spec fn kept_indices<T: HasTime>(items: Seq<T>, from: i64, to: i64) -> Seq<int>
    decreases items.len(),
{
    if items.len() == 0 {
        seq![]
    } else {
        let prev = kept_indices(items.drop_last(), from, to);
        let t = items.last().time_of();
        if from <= t && t <= to {
            prev.push(items.len() - 1)
        } else {
            prev
        }
    }
}

proof fn lemma_kept_indices_bounds<T: HasTime>(items: Seq<T>, from: i64, to: i64)
    ensures
        forall|i: int| 0 <= i < kept_indices(items, from, to).len() ==>
            0 <= #[trigger] kept_indices(items, from, to)[i] < items.len(),
    decreases items.len(),
{
    if items.len() > 0 {
        let prev = kept_indices(items.drop_last(), from, to);
        lemma_kept_indices_bounds(items.drop_last(), from, to);
        let k = kept_indices(items, from, to);
        assert forall|i: int| 0 <= i < k.len() implies 0 <= #[trigger] k[i] < items.len() by {
            if i < prev.len() {
                assert(k[i] == prev[i]);
            }
        }
    }
}

/// Items whose time lies in `[from, to]` (cloned, in order).
pub fn slice_time<T: HasTime + Clone>(items: &[T], from: i64, to: i64) -> (r: Vec<T>)
    ensures
        r@.len() == kept_indices(items@, from, to).len(),
        forall|i: int| 0 <= i < r@.len() ==> cloned(items@[kept_indices(items@, from, to)[i]], #[trigger] r@[i]),
        forall|i: int| 0 <= i < r@.len() ==>
            from <= #[trigger] items@[kept_indices(items@, from, to)[i]].time_of() <= to,
{
    let mut out: Vec<T> = Vec::new();
    let mut k: usize = 0;
    proof {
        assert(items@.subrange(0, 0) =~= Seq::<T>::empty());
    }
    while k < items.len()
        invariant
            k <= items@.len(),
            out@.len() == kept_indices(items@.subrange(0, k as int), from, to).len(),
            forall|i: int| 0 <= i < out@.len() ==>
                cloned(items@[kept_indices(items@.subrange(0, k as int), from, to)[i]], #[trigger] out@[i]),
            forall|i: int| 0 <= i < out@.len() ==>
                from <= #[trigger] items@[kept_indices(items@.subrange(0, k as int), from, to)[i]].time_of() <= to,
        decreases items@.len() - k,
    {
        let ghost pre = items@.subrange(0, k as int);
        let ghost nxt = items@.subrange(0, k + 1);
        proof {
            assert(nxt.drop_last() =~= pre);
            lemma_kept_indices_bounds(pre, from, to);
        }
        let t = items[k].time();
        if from <= t && t <= to {
            out.push(items[k].clone());
            proof {
                assert forall|i: int| 0 <= i < out@.len() implies
                    cloned(items@[kept_indices(nxt, from, to)[i]], #[trigger] out@[i]) by {
                    if i < out@.len() - 1 {
                        assert(kept_indices(nxt, from, to)[i] == kept_indices(pre, from, to)[i]);
                    }
                }
                assert forall|i: int| 0 <= i < out@.len() implies
                    from <= #[trigger] items@[kept_indices(nxt, from, to)[i]].time_of() <= to by {
                    if i < out@.len() - 1 {
                        assert(kept_indices(nxt, from, to)[i] == kept_indices(pre, from, to)[i]);
                    }
                }
            }
        } else {
            proof {
                assert(kept_indices(nxt, from, to) == kept_indices(pre, from, to));
            }
        }
        k = k + 1;
    }
    proof {
        assert(items@.subrange(0, items@.len() as int) =~= items@);
    }
    out
}

/// The window covers `sec` (both ends inclusive).
pub open spec fn covers(w: SpikeWindow, sec: i64) -> bool {
    w.start <= sec && sec <= w.end
}

/// The first spike window covering `entry_sec`, if any.
pub fn find_spike_window(windows: &[SpikeWindow], entry_sec: i64) -> (r: Option<SpikeWindow>)
    ensures
        match r {
            Some(w) => exists|i: int|
                0 <= i < windows@.len() && windows@[i] == w && covers(w, entry_sec)
                    && forall|j: int| 0 <= j < i ==> !covers(#[trigger] windows@[j], entry_sec),
            None => forall|j: int| 0 <= j < windows@.len() ==> !covers(#[trigger] windows@[j], entry_sec),
        },
{
    let mut i: usize = 0;
    while i < windows.len()
        invariant
            i <= windows@.len(),
            forall|j: int| 0 <= j < i ==> !covers(#[trigger] windows@[j], entry_sec),
        decreases windows@.len() - i,
    {
        let w = windows[i];
        if entry_sec >= w.start && entry_sec <= w.end {
            return Some(w);
        }
        i = i + 1;
    }
    None
}

/// The Eastern-time `hhmm` of a minute of the day.
pub open spec fn hhmm_of(minute: u32) -> u32 {
    ((minute / 60) * 100 + minute % 60) as u32
}

/// Whether an entry at Unix time `entry_time_sec` falls in the configured
/// Eastern-time entry window (times that cannot be converted pass).
pub fn passes_time_gate(entry_time_sec: i64, cfg: &StrategyConfig) -> (r: bool)
    ensures
        r == match new_york_clock(entry_time_sec) {
            Some(p) => cfg.in_window(hhmm_of(p.1)),
            None => true,
        },
{
    match new_york_day_minute(entry_time_sec) {
        Some((_day, minute)) => {
            let hhmm = (minute / 60) * 100 + minute % 60;
            cfg.in_entry_time_window(hhmm)
        },
        None => true,
    }
}

/// A minute of the day `60·h + m` reads as the clock time `100·h + m`: the
/// hour in the hundreds and the minute of the hour (below 60) in the last two
/// digits.
pub proof fn law_hhmm_is_clock_time(h: u32, m: u32)
    requires
        h < 24,
        m < 60,
    ensures
        hhmm_of((60 * h + m) as u32) == 100 * h + m,
        hhmm_of((60 * h + m) as u32) / 100 == h,
        hhmm_of((60 * h + m) as u32) % 100 == m,
{
    let x = (60 * h + m) as u32;
    assert(x / 60 == h && x % 60 == m) by {
        vstd::arithmetic::div_mod::lemma_fundamental_div_mod(x as int, 60);
        vstd::arithmetic::div_mod::lemma_div_pos_is_pos(x as int, 60);
    }
}

/// The entry gate compares the New York wall-clock time of the entry, as
/// `hhmm` (hour times 100 plus minute), with the configured window: the
/// entry is let through exactly when that clock value lies in the window.
pub proof fn law_time_gate_uses_clock_time(entry_time_sec: i64, cfg: StrategyConfig)
    requires
        MIN_INSTANT <= entry_time_sec <= MAX_INSTANT,
        new_york_local(entry_time_sec).1 < 24,
        new_york_local(entry_time_sec).2 < 60,
    ensures
        ({
            let (_d, h, m) = new_york_local(entry_time_sec);
            &&& new_york_clock(entry_time_sec) is Some
            &&& (match new_york_clock(entry_time_sec) {
                Some(p) => cfg.in_window(hhmm_of(p.1)),
                None => true,
            }) == cfg.in_window((100 * h + m) as u32)
        }),
{
    let (_d, h, m) = new_york_local(entry_time_sec);
    law_hhmm_is_clock_time(h, m);
}

} // verus!
