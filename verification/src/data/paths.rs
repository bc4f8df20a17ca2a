//! Project data layout (paths as text) and the listing of backtest result files.

use vstd::prelude::*;
use vstd::multiset::Multiset;
use crate::config::tickers::ALL_TICKERS_SYMBOL;
use crate::text::{concat, lex_le, lemma_lex_total, lemma_lex_trans, owned, seq_starts_with, starts_with, str_eq, str_le};

verus! {

/// `a` joined with `b` as `PathBuf::join` does on Unix: an absolute `b`
/// replaces `a`; otherwise a `/` goes between them unless `a` is empty or
/// already ends with one.
pub open spec fn path_join(a: Seq<char>, b: Seq<char>) -> Seq<char> {
    if b.len() > 0 && b[0] == '/' {
        b
    } else if a.len() == 0 || a.last() == '/' {
        a + b
    } else {
        a + "/"@ + b
    }
}

/// Join `a` and `b` as path components.
pub fn join(a: &str, b: &str) -> (r: String)
    ensures
        r@ == path_join(a@, b@),
{
    let nb = b.unicode_len();
    if nb > 0 && b.get_char(0) == '/' {
        return owned(b);
    }
    let na = a.unicode_len();
    if na == 0 || a.get_char(na - 1) == '/' {
        return concat(a, b);
    }
    let mut s = concat(a, "/");
    s.append(b);
    s
}

/// Project root (where `data/` and `dashboard/` live).
pub fn project_root() -> (r: &'static str)
    ensures
        r@ == "."@,
{
    "."
}

/// The project data directory, `./data`.
pub open spec fn data_dir_spec() -> Seq<char> {
    path_join("."@, "data"@)
}

/// The project data directory.
pub fn data_dir() -> (r: String)
    ensures
        r@ == data_dir_spec(),
{
    join(project_root(), "data")
}

/// Directory of saved backtest results, `./data/results`.
pub fn results_dir() -> (r: String)
    ensures
        r@ == path_join(data_dir_spec(), "results"@),
{
    join(data_dir().as_str(), "results")
}

/// Ordering of dashboard ticker names: `"ALL"` first, the rest alphabetically.
pub open spec fn all_first_le(a: Seq<char>, b: Seq<char>) -> bool {
    if a == ALL_TICKERS_SYMBOL@ {
        true
    } else if b == ALL_TICKERS_SYMBOL@ {
        false
    } else {
        lex_le(a, b)
    }
}

proof fn lemma_all_first_total(a: Seq<char>, b: Seq<char>)
    ensures
        all_first_le(a, b) || all_first_le(b, a),
{
    lemma_lex_total(a, b, 0);
}

proof fn lemma_all_first_trans(a: Seq<char>, b: Seq<char>, c: Seq<char>)
    requires
        all_first_le(a, b),
        all_first_le(b, c),
    ensures
        all_first_le(a, c),
{
    if a != ALL_TICKERS_SYMBOL@ && b != ALL_TICKERS_SYMBOL@ && c != ALL_TICKERS_SYMBOL@ {
        lemma_lex_trans(a, b, c, 0);
    }
}

fn all_first_le_exec(a: &str, b: &str) -> (r: bool)
    ensures
        r == all_first_le(a@, b@),
{
    if str_eq(a, ALL_TICKERS_SYMBOL) {
        true
    } else if str_eq(b, ALL_TICKERS_SYMBOL) {
        false
    } else {
        str_le(a, b)
    }
}

/// The names are in dashboard order.
pub open spec fn sorted_all_first(v: Seq<String>) -> bool {
    forall|i: int, j: int| 0 <= i < j < v.len() ==> all_first_le(#[trigger] v[i]@, #[trigger] v[j]@)
}

/// Sort ticker names with `"ALL"` first and the rest alphabetically.
pub fn sort_tickers_all_first(tickers: &mut Vec<String>)
    ensures
        final(tickers)@.to_multiset() == old(tickers)@.to_multiset(),
        sorted_all_first(final(tickers)@),
{
    broadcast use vstd::seq_lib::group_to_multiset_ensures;
    let ghost orig = tickers@;
    let mut out: Vec<String> = Vec::new();
    while tickers.len() > 0
        invariant
            out@.to_multiset().add(tickers@.to_multiset()) == orig.to_multiset(),
            sorted_all_first(out@),
        decreases tickers@.len(),
    {
        let ghost before = tickers@;
        let x = tickers.pop().unwrap();
        proof {
            assert(before =~= tickers@.push(x));
            vstd::seq_lib::to_multiset_build(tickers@, x);
        }
        let mut j: usize = 0;
        while j < out.len() && all_first_le_exec(out[j].as_str(), x.as_str())
            invariant
                j <= out@.len(),
                forall|i: int| 0 <= i < j ==> all_first_le(#[trigger] out@[i]@, x@),
            decreases out@.len() - j,
        {
            j = j + 1;
        }
        let ghost pre = out@;
        out.insert(j, x);
        proof {
            assert(out@ =~= pre.insert(j as int, x));
            vstd::seq_lib::to_multiset_insert(pre, j as int, x);
            assert(out@.to_multiset().add(tickers@.to_multiset()) =~= orig.to_multiset());
            assert forall|a: int, b: int| 0 <= a < b < out@.len() implies
                all_first_le(#[trigger] out@[a]@, #[trigger] out@[b]@) by {
                if b < j {
                } else if b == j {
                } else if a < j {
                    // out[a] <= x, and x <= out[b] because x < pre[j] <= pre[b-1]
                    assert(!all_first_le(pre[j as int]@, x@));
                    lemma_all_first_total(pre[j as int]@, x@);
                    if b - 1 > j {
                        lemma_all_first_trans(x@, pre[j as int]@, pre[b - 1]@);
                    }
                    lemma_all_first_trans(out@[a]@, x@, out@[b]@);
                } else if a == j {
                    assert(!all_first_le(pre[j as int]@, x@));
                    lemma_all_first_total(pre[j as int]@, x@);
                    if b - 1 > j {
                        lemma_all_first_trans(x@, pre[j as int]@, pre[b - 1]@);
                    }
                } else {
                    assert(out@[a] == pre[a - 1]);
                    assert(out@[b] == pre[b - 1]);
                }
            }
        }
    }
    proof {
        assert(tickers@.to_multiset() =~= Multiset::empty());
    }
    *tickers = out;
}

/// The ticker of a result file named `latest-{TICKER}.json`.
pub open spec fn result_file_ticker(name: Seq<char>) -> Option<Seq<char>> {
    let p = "latest-"@;
    let s = ".json"@;
    if seq_starts_with(name, p) && name.len() >= p.len() + s.len()
        && name.subrange(name.len() - s.len(), name.len() as int) == s {
        Some(name.subrange(p.len() as int, name.len() - s.len()))
    } else {
        None
    }
}

/// The tickers named by the first `n` result files, in order.
pub open spec fn result_tickers(names: Seq<String>, n: int) -> Seq<Seq<char>>
    decreases n,
{
    if n <= 0 {
        Seq::empty()
    } else {
        match result_file_ticker(names[n - 1]@) {
            Some(t) => result_tickers(names, n - 1).push(t),
            None => result_tickers(names, n - 1),
        }
    }
}

/// The ticker of a result file name `latest-{TICKER}.json`, if it is one.
pub fn result_file_ticker_of(name: &str) -> (r: Option<String>)
    ensures
        match r {
            Some(t) => result_file_ticker(name@) == Some(t@),
            None => result_file_ticker(name@).is_none(),
        },
{
    proof {
        reveal_strlit("latest-");
        reveal_strlit(".json");
    }
    if !starts_with(name, "latest-") {
        return None;
    }
    let n = name.unicode_len();
    if n < 12 {
        return None;
    }
    let tail = name.substring_char(n - 5, n);
    if !str_eq(tail, ".json") {
        return None;
    }
    Some(owned(name.substring_char(7, n - 5)))
}

/// The views of a list of strings.
pub open spec fn views(v: Seq<String>) -> Seq<Seq<char>> {
    v.map_values(|s: String| s@)
}

/// Tickers that have a `latest-{TICKER}.json` among the result file names,
/// `"ALL"` first and the rest in alphabetical order.
pub fn list_backtest_tickers(file_names: &[String]) -> (r: Vec<String>)
    ensures
        views(r@).to_multiset() == result_tickers(file_names@, file_names@.len() as int).to_multiset(),
        sorted_all_first(r@),
{
    let mut tickers: Vec<String> = Vec::new();
    let mut i: usize = 0;
    while i < file_names.len()
        invariant
            i <= file_names@.len(),
            views(tickers@) == result_tickers(file_names@, i as int),
        decreases file_names.len() - i,
    {
        match result_file_ticker_of(file_names[i].as_str()) {
            Some(t) => {
                tickers.push(t);
                proof {
                    assert(views(tickers@) =~= result_tickers(file_names@, i + 1));
                }
            },
            None => {},
        }
        i = i + 1;
    }
    let ghost before = tickers@;
    sort_tickers_all_first(&mut tickers);
    proof {
        lemma_views_multiset(before, tickers@);
    }
    tickers
}

/// Lists with the same multiset have views with the same multiset.
proof fn lemma_views_multiset(a: Seq<String>, b: Seq<String>)
    requires
        a.to_multiset() == b.to_multiset(),
    ensures
        views(a).to_multiset() == views(b).to_multiset(),
{
    lemma_map_multiset(a, b, |s: String| s@);
    assert(views(a) =~= a.map_values(|s: String| s@));
    assert(views(b) =~= b.map_values(|s: String| s@));
}

/// Mapping preserves equality of multisets.
proof fn lemma_map_multiset<A, B>(a: Seq<A>, b: Seq<A>, f: spec_fn(A) -> B)
    requires
        a.to_multiset() == b.to_multiset(),
    ensures
        a.map_values(f).to_multiset() == b.map_values(f).to_multiset(),
    decreases a.len(),
{
    broadcast use vstd::seq_lib::group_to_multiset_ensures;

    vstd::seq_lib::to_multiset_len(a);
    vstd::seq_lib::to_multiset_len(b);
    if a.len() == 0 {
        assert(b.len() == 0);
        assert(a.map_values(f) =~= Seq::<B>::empty());
        assert(b.map_values(f) =~= Seq::<B>::empty());
    } else {
        let x = a.last();
        let a0 = a.drop_last();
        assert(a =~= a0.push(x));
        vstd::seq_lib::to_multiset_build(a0, x);
        assert(b.to_multiset().count(x) > 0);
        assert(b.contains(x));
        let i = choose|i: int| 0 <= i < b.len() && b[i] == x;
        let b0 = b.remove(i);
        vstd::seq_lib::to_multiset_remove(b, i);
        assert(a0.to_multiset() =~= b0.to_multiset());
        lemma_map_multiset(a0, b0, f);
        assert(a.map_values(f) =~= a0.map_values(f).push(f(x)));
        vstd::seq_lib::to_multiset_build(a0.map_values(f), f(x));
        assert(b =~= b0.insert(i, x));
        assert(b.map_values(f) =~= b0.map_values(f).insert(i, f(x)));
        vstd::seq_lib::to_multiset_insert(b0.map_values(f), i, f(x));
    }
}

} // verus!
