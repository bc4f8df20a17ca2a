//! Stable ranking of items by an integer key, highest first.

use vstd::prelude::*;

verus! {

/// Items ranked by an integer key.
pub trait Keyed {
    /// The item's key.
    spec fn key_of(&self) -> i64;

    /// The item's key.
    fn key(&self) -> (r: i64)
        ensures
            r == self.key_of();
}

impl Keyed for (String, i64) {
    open spec fn key_of(&self) -> i64 {
        self.1
    }

    fn key(&self) -> (r: i64) {
        self.1
    }
}

/// Where `x` goes among the ranked `t`, searching from `k`: after every item
/// keyed at least as high.
pub open spec fn key_pos<T: Keyed>(t: Seq<T>, x: T, k: int) -> int
    decreases t.len() - k,
{
    if 0 <= k < t.len() && t[k].key_of() >= x.key_of() {
        key_pos(t, x, k + 1)
    } else {
        k
    }
}

/// The first `n` items, highest key first; equal keys keep their order.
pub open spec fn ranked_by_key<T: Keyed>(s: Seq<T>, n: int) -> Seq<T>
    decreases n,
{
    if n <= 0 {
        Seq::empty()
    } else {
        let r = ranked_by_key(s, n - 1);
        r.insert(key_pos(r, s[n - 1], 0), s[n - 1])
    }
}

/// Bounds of `key_pos`.
proof fn lemma_key_pos_bounds<T: Keyed>(t: Seq<T>, x: T, k: int)
    requires
        0 <= k <= t.len(),
    ensures
        k <= key_pos(t, x, k) <= t.len(),
    decreases t.len() - k,
{
    if k < t.len() && t[k].key_of() >= x.key_of() {
        lemma_key_pos_bounds(t, x, k + 1);
    }
}

/// A ranking is as long as the ranked prefix.
pub proof fn lemma_ranked_by_key_len<T: Keyed>(s: Seq<T>, n: int)
    requires
        0 <= n,
    ensures
        ranked_by_key(s, n).len() == n,
    decreases n,
{
    if n > 0 {
        lemma_ranked_by_key_len(s, n - 1);
        lemma_key_pos_bounds(ranked_by_key(s, n - 1), s[n - 1], 0);
    }
}

/// Keys never increase along `t`.
pub open spec fn keys_descending<T: Keyed>(t: Seq<T>) -> bool {
    forall|i: int, j: int| 0 <= i < j < t.len() ==> #[trigger] t[i].key_of() >= #[trigger] t[j].key_of()
}

/// Everything before the insertion point keys at least `x`; everything from
/// it on keys lower.
proof fn lemma_key_pos_split<T: Keyed>(t: Seq<T>, x: T, k: int)
    requires
        0 <= k <= t.len(),
        keys_descending(t),
        forall|i: int| 0 <= i < k ==> #[trigger] t[i].key_of() >= x.key_of(),
    ensures
        forall|i: int| 0 <= i < key_pos(t, x, k) ==> #[trigger] t[i].key_of() >= x.key_of(),
        forall|i: int| key_pos(t, x, k) <= i < t.len() ==> #[trigger] t[i].key_of() < x.key_of(),
    decreases t.len() - k,
{
    if k < t.len() && t[k].key_of() >= x.key_of() {
        lemma_key_pos_split(t, x, k + 1);
    } else if k < t.len() {
        assert forall|i: int| k <= i < t.len() implies #[trigger] t[i].key_of() < x.key_of() by {
            if i > k {
                assert(t[k].key_of() >= t[i].key_of());
            }
        }
    }
}

/// A ranking has descending keys.
pub proof fn law_ranked_by_key_descending<T: Keyed>(s: Seq<T>, n: int)
    requires
        0 <= n <= s.len(),
    ensures
        keys_descending(ranked_by_key(s, n)),
    decreases n,
{
    if n > 0 {
        law_ranked_by_key_descending(s, n - 1);
        let r = ranked_by_key(s, n - 1);
        let x = s[n - 1];
        lemma_key_pos_bounds(r, x, 0);
        lemma_key_pos_split(r, x, 0);
        let p = key_pos(r, x, 0);
        let t = ranked_by_key(s, n);
        assert forall|i: int, j: int| 0 <= i < j < t.len() implies #[trigger] t[i].key_of() >= #[trigger] t[j].key_of() by {
            if j < p {
                assert(t[i] == r[i] && t[j] == r[j]);
            } else if j == p {
                assert(t[i] == r[i]);
            } else if i < p {
                assert(t[i] == r[i] && t[j] == r[j - 1]);
            } else if i == p {
                assert(t[j] == r[j - 1]);
            } else {
                assert(t[i] == r[i - 1] && t[j] == r[j - 1]);
            }
        }
    }
}

/// Move every item of `v` into a stack, last first.
pub fn reversed_items<T>(v: Vec<T>) -> (r: Vec<T>)
    ensures
        r@.len() == v@.len(),
        forall|k: int| 0 <= k < r@.len() ==> #[trigger] r@[k] == v@[v@.len() - 1 - k],
{
    let ghost all = v@;
    let mut rest = v;
    let mut stack: Vec<T> = Vec::new();
    while rest.len() > 0
        invariant
            rest@ == all.subrange(0, rest@.len() as int),
            stack@.len() == all.len() - rest@.len(),
            forall|k: int| 0 <= k < stack@.len() ==> #[trigger] stack@[k] == all[all.len() - 1 - k],
        decreases rest@.len(),
    {
        let x = rest.pop().unwrap();
        stack.push(x);
    }
    stack
}

/// Rank items by key, highest first; equal keys keep their order.
pub fn rank_desc<T: Keyed>(v: Vec<T>) -> (r: Vec<T>)
    ensures
        r@ == ranked_by_key(v@, v@.len() as int),
{
    let ghost all = v@;
    let mut stack = reversed_items(v);
    let mut sorted: Vec<T> = Vec::new();
    while stack.len() > 0
        invariant
            stack@.len() <= all.len(),
            forall|k: int| 0 <= k < stack@.len() ==> #[trigger] stack@[k] == all[all.len() - 1 - k],
            sorted@ == ranked_by_key(all, all.len() - stack@.len()),
        decreases stack@.len(),
    {
        let ghost n = all.len() - stack@.len();
        let x = stack.pop().unwrap();
        let kx = x.key();
        let mut j: usize = 0;
        while j < sorted.len() && sorted[j].key() >= kx
            invariant
                j <= sorted@.len(),
                kx == x.key_of(),
                key_pos(sorted@, x, j as int) == key_pos(sorted@, x, 0),
            decreases sorted@.len() - j,
        {
            j = j + 1;
        }
        proof {
            lemma_key_pos_bounds(sorted@, x, 0);
            assert(x == all[n]);
        }
        sorted.insert(j, x);
    }
    sorted
}

} // verus!
