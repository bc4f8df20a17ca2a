//! Live state files: their layout, the bracket ids kept in them, and which
//! backups of them are old enough to delete.

use vstd::prelude::*;
use crate::broker::BracketOrderIds;
use crate::config::tickers::{ticker_name, Ticker};
use crate::data::paths::{data_dir, data_dir_spec, join, path_join};
use crate::ranking::{rank_desc, ranked_by_key, reversed_items, lemma_ranked_by_key_len};
use crate::text::{concat, seq_starts_with, starts_with};

verus! {

/// History backups kept regardless of age.
pub const MAX_HISTORY_FILES: usize = 10_000;
/// Age in days past which backups beyond the kept count are deleted.
pub const MAX_HISTORY_DAYS: u64 = 300;

/// `data/live`.
pub open spec fn state_dir_spec() -> Seq<char> {
    path_join(data_dir_spec(), "live"@)
}

/// Directory of the live state files.
pub fn state_dir() -> (r: String)
    ensures
        r@ == state_dir_spec(),
{
    join(data_dir().as_str(), "live")
}

/// Directory of the state backups, `data/live/history`.
pub fn history_dir() -> (r: String)
    ensures
        r@ == path_join(state_dir_spec(), "history"@),
{
    join(state_dir().as_str(), "history")
}

/// State file of a ticker, `data/live/state-{TICKER}.json`.
pub fn state_path(ticker: Ticker) -> (r: String)
    ensures
        r@ == path_join(state_dir_spec(), "state-"@ + ticker_name(ticker) + ".json"@),
{
    let mut name = concat("state-", ticker.as_str());
    name.append(".json");
    join(state_dir().as_str(), name.as_str())
}

/// The trade log, `data/live/trade-log.json`.
pub fn trade_log_path() -> (r: String)
    ensures
        r@ == path_join(state_dir_spec(), "trade-log.json"@),
{
    join(state_dir().as_str(), "trade-log.json")
}

/// Bracket ids kept in a saved state: both legs are needed (the parent id is
/// not kept and reads as 0).
pub fn bracket_order_ids(stop_loss_order_id: Option<i32>, take_profit_order_id: Option<i32>) -> (r: Option<BracketOrderIds>)
    ensures
        match (stop_loss_order_id, take_profit_order_id) {
            (Some(sl), Some(tp)) => r == Some(BracketOrderIds { parent_id: 0, stop_loss_id: sl, take_profit_id: tp }),
            _ => r.is_none(),
        },
{
    match (stop_loss_order_id, take_profit_order_id) {
        (Some(sl), Some(tp)) => Some(BracketOrderIds { parent_id: 0, stop_loss_id: sl, take_profit_id: tp }),
        _ => None,
    }
}

/// Name prefix of a ticker's backups, `state-{TICKER}-`.
pub open spec fn backup_prefix(t: Ticker) -> Seq<char> {
    "state-"@ + ticker_name(t) + "-"@
}

/// The first `n` files whose names start with `prefix`, in order.
pub open spec fn with_prefix(files: Seq<(String, i64)>, prefix: Seq<char>, n: int) -> Seq<(String, i64)>
    decreases n,
{
    if n <= 0 {
        Seq::empty()
    } else if seq_starts_with(files[n - 1].0@, prefix) {
        with_prefix(files, prefix, n - 1).push(files[n - 1])
    } else {
        with_prefix(files, prefix, n - 1)
    }
}

/// Names of the first `n` ranked files modified before `cutoff`, in order.
pub open spec fn older_than(r: Seq<(String, i64)>, cutoff: int, n: int) -> Seq<Seq<char>>
    decreases n,
{
    if n <= 0 {
        Seq::empty()
    } else if r[n - 1].1 < cutoff {
        older_than(r, cutoff, n - 1).push(r[n - 1].0@)
    } else {
        older_than(r, cutoff, n - 1)
    }
}

/// Backups to delete: when a ticker has more than [`MAX_HISTORY_FILES`]
/// backups, those past that many newest ones that are also older than
/// [`MAX_HISTORY_DAYS`] days; none otherwise.
pub open spec fn history_to_delete(t: Ticker, files: Seq<(String, i64)>, now_secs: i64) -> Seq<Seq<char>> {
    let mine = with_prefix(files, backup_prefix(t), files.len() as int);
    if mine.len() <= MAX_HISTORY_FILES {
        Seq::empty()
    } else {
        let r = ranked_by_key(mine, mine.len() as int).subrange(MAX_HISTORY_FILES as int, mine.len() as int);
        older_than(r, now_secs - MAX_HISTORY_DAYS * 86_400, r.len() as int)
    }
}

/// Choose which of a ticker's backups (name and modification time in Unix
/// seconds) to delete at time `now_secs`.
pub fn history_files_to_delete(ticker: Ticker, files: Vec<(String, i64)>, now_secs: i64) -> (r: Vec<String>)
    requires
        now_secs >= i64::MIN + MAX_HISTORY_DAYS * 86_400,
    ensures
        r@.map_values(|s: String| s@) == history_to_delete(ticker, files@, now_secs),
{
    let mut prefix = concat("state-", ticker.as_str());
    prefix.append("-");
    let ghost all = files@;
    let mut stack = reversed_items(files);
    let mut mine: Vec<(String, i64)> = Vec::new();
    while stack.len() > 0
        invariant
            stack@.len() <= all.len(),
            forall|k: int| 0 <= k < stack@.len() ==> #[trigger] stack@[k] == all[all.len() - 1 - k],
            mine@ == with_prefix(all, prefix@, all.len() - stack@.len()),
            prefix@ == backup_prefix(ticker),
        decreases stack@.len(),
    {
        let ghost n = all.len() - stack@.len();
        let f = stack.pop().unwrap();
        proof {
            assert(f == all[n]);
        }
        if starts_with(f.0.as_str(), prefix.as_str()) {
            mine.push(f);
        }
    }
    if mine.len() <= MAX_HISTORY_FILES {
        proof {
            assert(Seq::<String>::empty().map_values(|s: String| s@) =~= Seq::<Seq<char>>::empty());
        }
        return Vec::new();
    }
    let ghost m = mine@;
    let total_n = mine.len();
    let ranked = rank_desc(mine);
    proof {
        lemma_ranked_by_key_len(m, m.len() as int);
    }
    let cutoff = now_secs - (MAX_HISTORY_DAYS * 86_400) as i64;
    let ghost rr = ranked@.subrange(MAX_HISTORY_FILES as int, m.len() as int);
    let mut out: Vec<String> = Vec::new();
    let mut stack2 = reversed_items(ranked);
    let ghost total = m.len();
    while stack2.len() > total_n - MAX_HISTORY_FILES
        invariant
            total == m.len(),
            total_n == total,
            total > MAX_HISTORY_FILES,
            stack2@.len() <= total,
            stack2@.len() >= total - MAX_HISTORY_FILES,
            forall|k: int| 0 <= k < stack2@.len() ==> #[trigger] stack2@[k] == ranked_by_key(m, total as int)[total - 1 - k],
            out@.len() == 0,
        decreases stack2@.len(),
    {
        let _ = stack2.pop();
    }
    proof {
        assert(out@.map_values(|s: String| s@) =~= Seq::<Seq<char>>::empty());
    }
    while stack2.len() > 0
        invariant
            total == m.len(),
            total_n == total,
            total > MAX_HISTORY_FILES,
            stack2@.len() <= total - MAX_HISTORY_FILES,
            forall|k: int| 0 <= k < stack2@.len() ==> #[trigger] stack2@[k] == ranked_by_key(m, total as int)[total - 1 - k],
            rr == ranked_by_key(m, total as int).subrange(MAX_HISTORY_FILES as int, total as int),
            rr.len() == total - MAX_HISTORY_FILES,
            ranked_by_key(m, total as int).len() == total,
            cutoff == now_secs - MAX_HISTORY_DAYS * 86_400,
            out@.map_values(|s: String| s@) == older_than(rr, cutoff as int, rr.len() - stack2@.len()),
        decreases stack2@.len(),
    {
        let ghost n = rr.len() - stack2@.len();
        let ghost len0 = stack2@.len();
        let ghost last = stack2@[len0 - 1];
        let f = stack2.pop().unwrap();
        proof {
            assert(f == last);
            assert(last == ranked_by_key(m, total as int)[total - 1 - (len0 - 1)]);
            assert(rr[n] == ranked_by_key(m, total as int)[MAX_HISTORY_FILES + n]);
            assert(f == rr[n]);
        }
        let ghost pre = out@;
        if f.1 < cutoff {
            out.push(f.0);
            proof {
                assert(out@.map_values(|s: String| s@) =~= pre.map_values(|s: String| s@).push(rr[n].0@));
            }
        }
    }
    out
}

} // verus!
