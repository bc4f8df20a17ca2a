//! Startup recovery: which live cache directories are stale.

use vstd::prelude::*;
use crate::config::strategy::{gex_trading_days_spec, trading_to_calendar_spec, StrategyConfig};
use crate::dates::{parse_day, parse_iso_day};

verus! {

/// A live cache directory named `YYYY-MM-DD` older than the warmup window
/// (plus a day) as of day `today`; other names are never stale.
pub open spec fn stale_dir(today: i32, name: Seq<char>) -> bool {
    match parse_iso_day(name) {
        Some(d) => today - d > trading_to_calendar_spec(gex_trading_days_spec()) + 1,
        None => false,
    }
}

/// The names of the first `n` directories that are stale, in order.
pub open spec fn stale_dirs(today: i32, names: Seq<String>, n: int) -> Seq<Seq<char>>
    decreases n,
{
    if n <= 0 {
        Seq::empty()
    } else if stale_dir(today, names[n - 1]@) {
        stale_dirs(today, names, n - 1).push(names[n - 1]@)
    } else {
        stale_dirs(today, names, n - 1)
    }
}

/// Of the day directories of one ticker's live cache, those to delete on day
/// `today`.
pub fn stale_live_day_dirs(today: i32, dir_names: &[String], config: &StrategyConfig) -> (r: Vec<String>)
    ensures
        r@.map_values(|s: String| s@) == stale_dirs(today, dir_names@, dir_names@.len() as int),
{
    let max_age: i64 = config.warmup_gex_calendar_days() as i64 + 1;
    let mut out: Vec<String> = Vec::new();
    let mut i: usize = 0;
    proof {
        assert(out@.map_values(|s: String| s@) =~= Seq::<Seq<char>>::empty());
    }
    while i < dir_names.len()
        invariant
            i <= dir_names@.len(),
            max_age == trading_to_calendar_spec(gex_trading_days_spec()) + 1,
            out@.map_values(|s: String| s@) == stale_dirs(today, dir_names@, i as int),
        decreases dir_names.len() - i,
    {
        let ghost pre = out@;
        match parse_day(dir_names[i].as_str()) {
            Some(d) => {
                if (today as i64) - (d as i64) > max_age {
                    out.push(dir_names[i].clone());
                    proof {
                        assert(out@.map_values(|s: String| s@) =~= pre.map_values(|s: String| s@).push(
                            dir_names@[i as int]@,
                        ));
                    }
                }
            },
            None => {},
        }
        i = i + 1;
    }
    out
}

} // verus!
