//! Entry candidates of one poll cycle, ranked across tickers.

use vstd::prelude::*;
use crate::config::tickers::Ticker;

verus! {

/// An entry candidate: the ticker, the score it is ranked by (the TSI in
/// hundredths) and the candidate's data.
pub struct LiveEntryCandidate<D> {
    pub ticker: Ticker,
    pub score: i64,
    pub data: D,
}

/// Where candidate `x` goes among the ranked `t`, searching from `k`: after
/// every candidate scored at least as high.
pub open spec fn rank_pos<D>(t: Seq<LiveEntryCandidate<D>>, x: LiveEntryCandidate<D>, k: int) -> int
    decreases t.len() - k,
{
    if 0 <= k < t.len() && t[k].score >= x.score {
        rank_pos(t, x, k + 1)
    } else {
        k
    }
}

/// The first `n` candidates, highest score first; equal scores keep their
/// order.
pub open spec fn ranked<D>(s: Seq<LiveEntryCandidate<D>>, n: int) -> Seq<LiveEntryCandidate<D>>
    decreases n,
{
    if n <= 0 {
        Seq::empty()
    } else {
        let r = ranked(s, n - 1);
        r.insert(rank_pos(r, s[n - 1], 0), s[n - 1])
    }
}

/// Whether some candidate in `r` is for `t`.
pub open spec fn has_ticker<D>(r: Seq<LiveEntryCandidate<D>>, t: Ticker) -> bool {
    exists|j: int| 0 <= j < r.len() && #[trigger] r[j].ticker == t
}

/// The first `n` candidates, keeping only the first one of each ticker.
pub open spec fn first_per_ticker<D>(s: Seq<LiveEntryCandidate<D>>, n: int) -> Seq<LiveEntryCandidate<D>>
    decreases n,
{
    if n <= 0 {
        Seq::empty()
    } else {
        let r = first_per_ticker(s, n - 1);
        if has_ticker(r, s[n - 1].ticker) {
            r
        } else {
            r.push(s[n - 1])
        }
    }
}

/// Bounds of `rank_pos`.
proof fn lemma_rank_pos_bounds<D>(t: Seq<LiveEntryCandidate<D>>, x: LiveEntryCandidate<D>, k: int)
    requires
        0 <= k <= t.len(),
    ensures
        k <= rank_pos(t, x, k) <= t.len(),
    decreases t.len() - k,
{
    if k < t.len() && t[k].score >= x.score {
        lemma_rank_pos_bounds(t, x, k + 1);
    }
}

/// Length of a ranking.
proof fn lemma_ranked_len<D>(s: Seq<LiveEntryCandidate<D>>, n: int)
    requires
        0 <= n,
    ensures
        ranked(s, n).len() == n,
    decreases n,
{
    if n > 0 {
        lemma_ranked_len(s, n - 1);
        lemma_rank_pos_bounds(ranked(s, n - 1), s[n - 1], 0);
    }
}

/// Move every item of `v` into a stack, last first.
fn reversed<T>(v: Vec<T>) -> (r: Vec<T>)
    ensures
        r@.len() == v@.len(),
        forall|k: int| 0 <= k < r@.len() ==> #[trigger] r@[k] == v@[v@.len() - 1 - k],
{
    let ghost all = v@;
    let mut rest = v;
    let mut stack: Vec<T> = Vec::new();
    while rest.len() > 0
        invariant
            rest@ == all.subrange(0, rest@.len() as int),
            stack@.len() == all.len() - rest@.len(),
            forall|k: int| 0 <= k < stack@.len() ==> #[trigger] stack@[k] == all[all.len() - 1 - k],
        decreases rest@.len(),
    {
        let x = rest.pop().unwrap();
        stack.push(x);
    }
    stack
}

/// Rank the candidates by score, highest first (ties keep their order), and
/// keep only the best one of each ticker.
pub fn rank_and_dedup<D>(candidates: &mut Vec<LiveEntryCandidate<D>>)
    ensures
        final(candidates)@ == first_per_ticker(
            ranked(old(candidates)@, old(candidates)@.len() as int),
            old(candidates)@.len() as int,
        ),
{
    let ghost all = candidates@;
    let mut taken: Vec<LiveEntryCandidate<D>> = Vec::new();
    std::mem::swap(&mut taken, candidates);
    let mut stack = reversed(taken);
    let mut sorted: Vec<LiveEntryCandidate<D>> = Vec::new();
    while stack.len() > 0
        invariant
            stack@.len() <= all.len(),
            forall|k: int| 0 <= k < stack@.len() ==> #[trigger] stack@[k] == all[all.len() - 1 - k],
            sorted@ == ranked(all, all.len() - stack@.len()),
        decreases stack@.len(),
    {
        let ghost n = all.len() - stack@.len();
        let x = stack.pop().unwrap();
        let mut j: usize = 0;
        while j < sorted.len() && sorted[j].score >= x.score
            invariant
                j <= sorted@.len(),
                rank_pos(sorted@, x, j as int) == rank_pos(sorted@, x, 0),
            decreases sorted@.len() - j,
        {
            j = j + 1;
        }
        proof {
            lemma_rank_pos_bounds(sorted@, x, 0);
            assert(x == all[n]);
        }
        sorted.insert(j, x);
    }
    proof {
        lemma_ranked_len(all, all.len() as int);
    }
    let ghost srt = sorted@;
    let mut stack2 = reversed(sorted);
    let mut out: Vec<LiveEntryCandidate<D>> = Vec::new();
    while stack2.len() > 0
        invariant
            stack2@.len() <= srt.len(),
            srt.len() == all.len(),
            forall|k: int| 0 <= k < stack2@.len() ==> #[trigger] stack2@[k] == srt[srt.len() - 1 - k],
            out@ == first_per_ticker(srt, srt.len() - stack2@.len()),
        decreases stack2@.len(),
    {
        let ghost n = srt.len() - stack2@.len();
        let x = stack2.pop().unwrap();
        let mut seen = false;
        let mut j: usize = 0;
        while j < out.len()
            invariant
                j <= out@.len(),
                seen == exists|q: int| 0 <= q < j && #[trigger] out@[q].ticker == x.ticker,
            decreases out@.len() - j,
        {
            if out[j].ticker == x.ticker {
                seen = true;
            }
            j = j + 1;
        }
        proof {
            assert(x == srt[n]);
            if seen {
                let q = choose|q: int| 0 <= q < out@.len() && #[trigger] out@[q].ticker == x.ticker;
                assert(has_ticker(out@, x.ticker));
            } else {
                assert(!has_ticker(out@, x.ticker));
            }
        }
        if !seen {
            out.push(x);
        }
    }
    *candidates = out;
}

/// Scores never increase along `t`.
pub open spec fn scores_descending<D>(t: Seq<LiveEntryCandidate<D>>) -> bool {
    forall|i: int, j: int| 0 <= i < j < t.len() ==> #[trigger] t[i].score >= #[trigger] t[j].score
}

/// Everything in `rank_pos`'s prefix scores at least `x`; everything after scores less.
proof fn lemma_rank_pos_split<D>(t: Seq<LiveEntryCandidate<D>>, x: LiveEntryCandidate<D>, k: int)
    requires
        0 <= k <= t.len(),
        scores_descending(t),
        forall|i: int| 0 <= i < k ==> #[trigger] t[i].score >= x.score,
    ensures
        forall|i: int| 0 <= i < rank_pos(t, x, k) ==> #[trigger] t[i].score >= x.score,
        forall|i: int| rank_pos(t, x, k) <= i < t.len() ==> #[trigger] t[i].score < x.score,
    decreases t.len() - k,
{
    if k < t.len() && t[k].score >= x.score {
        lemma_rank_pos_split(t, x, k + 1);
    } else if k < t.len() {
        assert forall|i: int| k <= i < t.len() implies #[trigger] t[i].score < x.score by {
            if i > k {
                assert(t[k].score >= t[i].score);
            }
        }
    }
}

/// A ranking is in descending score order and holds every ranked candidate.
proof fn lemma_ranked_props<D>(s: Seq<LiveEntryCandidate<D>>, n: int)
    requires
        0 <= n <= s.len(),
    ensures
        scores_descending(ranked(s, n)),
        ranked(s, n).len() == n,
        forall|k: int| 0 <= k < n ==> exists|p: int| 0 <= p < n && #[trigger] ranked(s, n)[p] == #[trigger] s[k],
    decreases n,
{
    if n > 0 {
        lemma_ranked_props(s, n - 1);
        let r = ranked(s, n - 1);
        let x = s[n - 1];
        lemma_rank_pos_bounds(r, x, 0);
        lemma_rank_pos_split(r, x, 0);
        let p = rank_pos(r, x, 0);
        let t = ranked(s, n);
        assert(t == r.insert(p, x));
        assert forall|i: int, j: int| 0 <= i < j < t.len() implies #[trigger] t[i].score >= #[trigger] t[j].score by {
            if j < p {
                assert(t[i] == r[i] && t[j] == r[j]);
            } else if j == p {
                assert(t[i] == r[i]);
            } else if i < p {
                assert(t[i] == r[i] && t[j] == r[j - 1]);
            } else if i == p {
                assert(t[j] == r[j - 1]);
            } else {
                assert(t[i] == r[i - 1] && t[j] == r[j - 1]);
            }
        }
        assert forall|k: int| 0 <= k < n implies exists|q: int| 0 <= q < n && #[trigger] t[q] == #[trigger] s[k] by {
            if k == n - 1 {
                assert(t[p] == s[k]);
            } else {
                let q0 = choose|q: int| 0 <= q < n - 1 && #[trigger] r[q] == #[trigger] s[k];
                if q0 < p {
                    assert(t[q0] == s[k]);
                } else {
                    assert(t[q0 + 1] == s[k]);
                }
            }
        }
    }
}

/// Every kept candidate is drawn from the list.
proof fn lemma_fpt_from<D>(t: Seq<LiveEntryCandidate<D>>, m: int)
    requires
        0 <= m <= t.len(),
    ensures
        forall|x: int| 0 <= x < first_per_ticker(t, m).len() ==> exists|i: int|
            0 <= i < m && #[trigger] first_per_ticker(t, m)[x] == #[trigger] t[i],
    decreases m,
{
    if m > 0 {
        lemma_fpt_from(t, m - 1);
        let r0 = first_per_ticker(t, m - 1);
        let r = first_per_ticker(t, m);
        if !has_ticker(r0, t[m - 1].ticker) {
            assert forall|a: int| 0 <= a < r.len() implies exists|i: int| 0 <= i < m && #[trigger] r[a] == #[trigger] t[i] by {
                if a < r0.len() {
                    let i = choose|i: int| 0 <= i < m - 1 && #[trigger] r0[a] == #[trigger] t[i];
                    assert(r[a] == t[i]);
                } else {
                    assert(r[a] == t[m - 1]);
                }
            }
        }
    }
}

/// Keeping the first of each ticker keeps a descending order.
proof fn lemma_fpt_sorted<D>(t: Seq<LiveEntryCandidate<D>>, m: int)
    requires
        0 <= m <= t.len(),
        scores_descending(t),
    ensures
        scores_descending(first_per_ticker(t, m)),
    decreases m,
{
    if m > 0 {
        lemma_fpt_sorted(t, m - 1);
        lemma_fpt_from(t, m - 1);
        let r0 = first_per_ticker(t, m - 1);
        let r = first_per_ticker(t, m);
        if !has_ticker(r0, t[m - 1].ticker) {
            assert forall|a: int, b: int| 0 <= a < b < r.len() implies #[trigger] r[a].score >= #[trigger] r[b].score by {
                if b == r0.len() {
                    let i = choose|i: int| 0 <= i < m - 1 && #[trigger] r0[a] == #[trigger] t[i];
                    assert(r[a] == t[i]);
                    assert(t[i].score >= t[m - 1].score);
                } else {
                    assert(r[a] == r0[a] && r[b] == r0[b]);
                }
            }
        }
    }
}

/// Keeping the first of each ticker leaves no ticker twice.
proof fn lemma_fpt_distinct<D>(t: Seq<LiveEntryCandidate<D>>, m: int)
    requires
        0 <= m <= t.len(),
    ensures
        forall|a: int, b: int| 0 <= a < b < first_per_ticker(t, m).len() ==> #[trigger] first_per_ticker(t, m)[a].ticker
            != #[trigger] first_per_ticker(t, m)[b].ticker,
    decreases m,
{
    if m > 0 {
        lemma_fpt_distinct(t, m - 1);
        let r0 = first_per_ticker(t, m - 1);
        let r = first_per_ticker(t, m);
        let x = t[m - 1];
        if !has_ticker(r0, x.ticker) {
            assert forall|a: int, b: int| 0 <= a < b < r.len() implies #[trigger] r[a].ticker != #[trigger] r[b].ticker by {
                if b == r0.len() {
                    assert(r[a] == r0[a]);
                    if r0[a].ticker == x.ticker {
                        assert(has_ticker(r0, x.ticker));
                    }
                } else {
                    assert(r[a] == r0[a] && r[b] == r0[b]);
                }
            }
        }
    }
}

/// Some candidate of `r` has `c`'s ticker and scores at least as high.
pub open spec fn covers<D>(r: Seq<LiveEntryCandidate<D>>, c: LiveEntryCandidate<D>) -> bool {
    exists|j: int| 0 <= j < r.len() && #[trigger] r[j].ticker == c.ticker && r[j].score >= c.score
}

/// Appending keeps what was covered.
proof fn lemma_covers_push<D>(r: Seq<LiveEntryCandidate<D>>, x: LiveEntryCandidate<D>, c: LiveEntryCandidate<D>)
    requires
        covers(r, c),
    ensures
        covers(r.push(x), c),
{
    let j = choose|j: int| 0 <= j < r.len() && #[trigger] r[j].ticker == c.ticker && r[j].score >= c.score;
    assert(r.push(x)[j] == r[j]);
}

/// In a descending list, the kept candidate of each listed ticker scores at
/// least as high as any listed candidate of that ticker.
proof fn lemma_fpt_best<D>(t: Seq<LiveEntryCandidate<D>>, m: int)
    requires
        0 <= m <= t.len(),
        scores_descending(t),
    ensures
        forall|k: int| 0 <= k < m ==> covers(first_per_ticker(t, m), #[trigger] t[k]),
    decreases m,
{
    if m > 0 {
        lemma_fpt_best(t, m - 1);
        lemma_fpt_from(t, m - 1);
        let r0 = first_per_ticker(t, m - 1);
        let r = first_per_ticker(t, m);
        let x = t[m - 1];
        if has_ticker(r0, x.ticker) {
            let j = choose|j: int| 0 <= j < r0.len() && #[trigger] r0[j].ticker == x.ticker;
            let i = choose|i: int| 0 <= i < m - 1 && #[trigger] r0[j] == #[trigger] t[i];
            assert(t[i].score >= t[m - 1].score);
            assert(r[j].ticker == t[m - 1].ticker);
            assert(covers(r, t[m - 1]));
        } else {
            assert forall|k: int| 0 <= k < m implies covers(r, #[trigger] t[k]) by {
                if k == m - 1 {
                    assert(r[r0.len() as int] == t[k]);
                } else {
                    lemma_covers_push(r0, x, t[k]);
                }
            }
        }
    }
}

/// After ranking and de-duplication: scores descend, no ticker appears
/// twice, and every ticker that had a candidate keeps one scoring at least
/// as high as any of its candidates.
pub proof fn law_rank_and_dedup<D>(s: Seq<LiveEntryCandidate<D>>)
    ensures
        ({
            let r = first_per_ticker(ranked(s, s.len() as int), s.len() as int);
            &&& scores_descending(r)
            &&& forall|a: int, b: int| 0 <= a < b < r.len() ==> #[trigger] r[a].ticker != #[trigger] r[b].ticker
            &&& forall|k: int| 0 <= k < s.len() ==> covers(r, #[trigger] s[k])
        }),
{
    let n = s.len() as int;
    lemma_ranked_props(s, n);
    let t = ranked(s, n);
    lemma_fpt_sorted(t, n);
    lemma_fpt_distinct(t, n);
    lemma_fpt_best(t, n);
    let r = first_per_ticker(t, n);
    assert forall|k: int| 0 <= k < n implies covers(r, #[trigger] s[k]) by {
        let p = choose|p: int| 0 <= p < n && #[trigger] t[p] == #[trigger] s[k];
        assert(covers(r, t[p]));
    }
}

} // verus!
