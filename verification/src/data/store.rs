//! A small keyed store (an association list with distinct keys) whose view is
//! a finite map; the in-process caches are built on it.

use vstd::prelude::*;
use crate::config::tickers::Ticker;
use crate::text::str_eq;

verus! {

/// Keys that can be compared at run time, equal exactly when their views are.
pub trait StoreKey: View + Sized {
    /// Whether `self` and `other` name the same key.
    fn same_key(&self, other: &Self) -> (r: bool)
        ensures
            r == (self@ == other@);
}

impl View for Ticker {
    type V = Ticker;

    open spec fn view(&self) -> Ticker {
        *self
    }
}

impl StoreKey for Ticker {
    fn same_key(&self, other: &Self) -> (r: bool) {
        *self == *other
    }
}

impl StoreKey for (Ticker, String) {
    fn same_key(&self, other: &Self) -> (r: bool) {
        self.0 == other.0 && str_eq(self.1.as_str(), other.1.as_str())
    }
}

/// No two entries share a key.
pub open spec fn keys_distinct<K: View, V>(e: Seq<(K, V)>) -> bool {
    forall|i: int, j: int| 0 <= i < e.len() && 0 <= j < e.len() && i != j ==> #[trigger] e[i].0@ != #[trigger] e[j].0@
}

/// The map an association list stands for (a later entry wins).
pub open spec fn entries_map<K: View, V>(e: Seq<(K, V)>) -> Map<K::V, V>
    decreases e.len(),
{
    if e.len() == 0 {
        Map::empty()
    } else {
        entries_map(e.drop_last()).insert(e.last().0@, e.last().1)
    }
}

/// A key absent from every entry is absent from the map.
proof fn lemma_absent<K: View, V>(e: Seq<(K, V)>, k: K::V)
    requires
        forall|i: int| 0 <= i < e.len() ==> #[trigger] e[i].0@ != k,
    ensures
        !entries_map(e).contains_key(k),
    decreases e.len(),
{
    if e.len() > 0 {
        assert forall|i: int| 0 <= i < e.drop_last().len() implies #[trigger] e.drop_last()[i].0@ != k by {
            assert(e.drop_last()[i] == e[i]);
        }
        lemma_absent(e.drop_last(), k);
    }
}

/// With distinct keys, entry `i` is what the map holds at its key.
proof fn lemma_entry<K: View, V>(e: Seq<(K, V)>, i: int)
    requires
        keys_distinct(e),
        0 <= i < e.len(),
    ensures
        entries_map(e).contains_key(e[i].0@),
        entries_map(e)[e[i].0@] == e[i].1,
    decreases e.len(),
{
    if i < e.len() - 1 {
        let d = e.drop_last();
        assert forall|a: int, b: int| 0 <= a < d.len() && 0 <= b < d.len() && a != b implies #[trigger] d[a].0@
            != #[trigger] d[b].0@ by {
            assert(d[a] == e[a] && d[b] == e[b]);
        }
        assert(d[i] == e[i]);
        lemma_entry(d, i);
        assert(e[i].0@ != e[e.len() - 1].0@);
    }
}

/// With distinct keys, the map holds one key per entry.
proof fn lemma_len<K: View, V>(e: Seq<(K, V)>)
    requires
        keys_distinct(e),
    ensures
        entries_map(e).dom().finite(),
        entries_map(e).len() == e.len(),
    decreases e.len(),
{
    if e.len() > 0 {
        let d = e.drop_last();
        assert forall|a: int, b: int| 0 <= a < d.len() && 0 <= b < d.len() && a != b implies #[trigger] d[a].0@
            != #[trigger] d[b].0@ by {
            assert(d[a] == e[a] && d[b] == e[b]);
        }
        lemma_len(d);
        assert forall|i: int| 0 <= i < d.len() implies #[trigger] d[i].0@ != e.last().0@ by {
            assert(d[i] == e[i]);
        }
        lemma_absent(d, e.last().0@);
    }
}

/// Replacing entry `i` by one with the same key view updates the map there.
proof fn lemma_update<K: View, V>(e: Seq<(K, V)>, i: int, x: (K, V))
    requires
        keys_distinct(e),
        0 <= i < e.len(),
        x.0@ == e[i].0@,
    ensures
        entries_map(e.update(i, x)) == entries_map(e).insert(x.0@, x.1),
    decreases e.len(),
{
    let u = e.update(i, x);
    if i == e.len() - 1 {
        assert(u.drop_last() =~= e.drop_last());
    } else {
        let d = e.drop_last();
        assert forall|a: int, b: int| 0 <= a < d.len() && 0 <= b < d.len() && a != b implies #[trigger] d[a].0@
            != #[trigger] d[b].0@ by {
            assert(d[a] == e[a] && d[b] == e[b]);
        }
        assert(u.drop_last() =~= d.update(i, x));
        assert(d[i] == e[i]);
        lemma_update(d, i, x);
        assert(e[i].0@ != e[e.len() - 1].0@);
        assert(u.last() == e.last());
        assert(entries_map(u) =~= entries_map(e).insert(x.0@, x.1));
    }
}

/// Removing entry `i` removes its key from the map.
proof fn lemma_remove<K: View, V>(e: Seq<(K, V)>, i: int)
    requires
        keys_distinct(e),
        0 <= i < e.len(),
    ensures
        entries_map(e.remove(i)) == entries_map(e).remove(e[i].0@),
    decreases e.len(),
{
    let r = e.remove(i);
    let d = e.drop_last();
    assert forall|a: int, b: int| 0 <= a < d.len() && 0 <= b < d.len() && a != b implies #[trigger] d[a].0@
        != #[trigger] d[b].0@ by {
        assert(d[a] == e[a] && d[b] == e[b]);
    }
    if i == e.len() - 1 {
        assert(r =~= d);
        assert forall|a: int| 0 <= a < d.len() implies #[trigger] d[a].0@ != e[i].0@ by {
            assert(d[a] == e[a]);
        }
        lemma_absent(d, e[i].0@);
        assert(entries_map(r) =~= entries_map(e).remove(e[i].0@));
    } else {
        assert(r.drop_last() =~= d.remove(i));
        assert(r.last() == e.last());
        assert(d[i] == e[i]);
        lemma_remove(d, i);
        assert(e[i].0@ != e[e.len() - 1].0@);
        assert(entries_map(r) =~= entries_map(e).remove(e[i].0@));
    }
}

/// A keyed store: distinct keys, viewed as a finite map from key views.
pub struct Store<K: StoreKey, V> {
    entries: Vec<(K, V)>,
}

impl<K: StoreKey, V> View for Store<K, V> {
    type V = Map<K::V, V>;

    closed spec fn view(&self) -> Map<K::V, V> {
        entries_map(self.entries@)
    }
}

impl<K: StoreKey, V> Store<K, V> {
    #[verifier::type_invariant]
    spec fn wf(self) -> bool {
        keys_distinct(self.entries@)
    }

    /// An empty store.
    pub fn new() -> (r: Self)
        ensures
            r@ == Map::<K::V, V>::empty(),
    {
        Store { entries: Vec::new() }
    }

    /// Index of the entry keyed like `k`.
    fn find(&self, k: &K) -> (r: Option<usize>)
        ensures
            match r {
                Some(i) => i < self.entries@.len() && self.entries@[i as int].0@ == k@,
                None => forall|i: int| 0 <= i < self.entries@.len() ==> #[trigger] self.entries@[i].0@ != k@,
            },
    {
        let mut i: usize = 0;
        while i < self.entries.len()
            invariant
                i <= self.entries@.len(),
                forall|j: int| 0 <= j < i ==> #[trigger] self.entries@[j].0@ != k@,
            decreases self.entries.len() - i,
        {
            if self.entries[i].0.same_key(k) {
                return Some(i);
            }
            i = i + 1;
        }
        None
    }

    /// The value stored under `k`, if any.
    pub fn get(&self, k: &K) -> (r: Option<&V>)
        ensures
            match r {
                Some(v) => self@.contains_key(k@) && self@[k@] == *v,
                None => !self@.contains_key(k@),
            },
    {
        proof {
            use_type_invariant(self);
        }
        match self.find(k) {
            Some(i) => {
                proof {
                    lemma_entry(self.entries@, i as int);
                }
                Some(&self.entries[i].1)
            },
            None => {
                proof {
                    lemma_absent(self.entries@, k@);
                }
                None
            },
        }
    }

    /// Number of keys held.
    pub fn len(&self) -> (r: usize)
        ensures
            self@.dom().finite(),
            r == self@.len(),
    {
        proof {
            use_type_invariant(self);
            lemma_len(self.entries@);
        }
        self.entries.len()
    }

    /// Store `v` under `k`, replacing what was there.
    pub fn put(&mut self, k: K, v: V)
        ensures
            final(self)@ == old(self)@.insert(k@, v),
    {
        proof {
            use_type_invariant(&*self);
        }
        let ghost kv = k@;
        match self.find(&k) {
            Some(i) => {
                let ghost e = self.entries@;
                proof {
                    lemma_update(e, i as int, (k, v));
                }
                let mut entries = Vec::new();
                std::mem::swap(&mut entries, &mut self.entries);
                entries.set(i, (k, v));
                proof {
                    assert(entries@ =~= e.update(i as int, (k, v)));
                    assert forall|a: int, b: int|
                        0 <= a < entries@.len() && 0 <= b < entries@.len() && a != b implies #[trigger] entries@[a].0@
                        != #[trigger] entries@[b].0@ by {
                        if a != i && b != i {
                            assert(entries@[a] == e[a] && entries@[b] == e[b]);
                        } else if a == i {
                            assert(entries@[b] == e[b]);
                        } else {
                            assert(entries@[a] == e[a]);
                        }
                    }
                }
                self.entries = entries;
            },
            None => {
                let ghost e = self.entries@;
                let mut entries = Vec::new();
                std::mem::swap(&mut entries, &mut self.entries);
                entries.push((k, v));
                proof {
                    assert(entries@.drop_last() =~= e);
                    assert forall|a: int, b: int|
                        0 <= a < entries@.len() && 0 <= b < entries@.len() && a != b implies #[trigger] entries@[a].0@
                        != #[trigger] entries@[b].0@ by {
                        if a < e.len() && b < e.len() {
                            assert(entries@[a] == e[a] && entries@[b] == e[b]);
                        } else if a < e.len() {
                            assert(entries@[a] == e[a]);
                        } else {
                            assert(entries@[b] == e[b]);
                        }
                    }
                }
                self.entries = entries;
            },
        }
    }

    /// Drop whatever is stored under `k`.
    pub fn remove(&mut self, k: &K)
        ensures
            final(self)@ == old(self)@.remove(k@),
    {
        proof {
            use_type_invariant(&*self);
        }
        match self.find(k) {
            Some(i) => {
                let ghost e = self.entries@;
                proof {
                    lemma_remove(e, i as int);
                }
                let mut entries = Vec::new();
                std::mem::swap(&mut entries, &mut self.entries);
                let _ = entries.remove(i);
                proof {
                    assert(entries@ =~= e.remove(i as int));
                    assert forall|a: int, b: int|
                        0 <= a < entries@.len() && 0 <= b < entries@.len() && a != b implies #[trigger] entries@[a].0@
                        != #[trigger] entries@[b].0@ by {
                        let a0 = if a < i { a } else { a + 1 };
                        let b0 = if b < i { b } else { b + 1 };
                        assert(entries@[a] == e[a0] && entries@[b] == e[b0]);
                    }
                }
                self.entries = entries;
            },
            None => {
                proof {
                    lemma_absent(self.entries@, k@);
                    assert(self@.remove(k@) =~= self@);
                }
            },
        }
    }
}

/// What `get` finds after `put`: the value put under that key, and what was
/// there before under any other key.
pub proof fn law_get_after_put<K: StoreKey, V>(before: Map<K::V, V>, k: K, v: V, q: K::V)
    ensures
        before.insert(k@, v).contains_key(k@),
        before.insert(k@, v)[k@] == v,
        q != k@ ==> (before.insert(k@, v).contains_key(q) == before.contains_key(q) && before.insert(
            k@,
            v,
        )[q] == before[q]),
{
}

/// After `remove`, the key is gone and every other key keeps its value.
pub proof fn law_remove_only_that_key<K: StoreKey, V>(before: Map<K::V, V>, k: K, q: K::V)
    ensures
        !before.remove(k@).contains_key(k@),
        q != k@ ==> (before.remove(k@).contains_key(q) == before.contains_key(q) && before.remove(
            k@,
        )[q] == before[q]),
{
}

} // verus!
