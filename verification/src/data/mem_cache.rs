//! In-process caches of per-day bars and per-month GEX maps, keyed by ticker
//! and date (or month) text.

use vstd::prelude::*;
use crate::config::tickers::Ticker;
use crate::data::store::Store;
use crate::text::owned;
use crate::types::OhlcBar;

verus! {

/// The three caches: a month's GEX map (of type `G`), a day's 1-minute bars
/// and a day's strategy-interval bars.
pub struct MemCache<G> {
    pub gex: Store<(Ticker, String), G>,
    pub bars: Store<(Ticker, String), Vec<OhlcBar>>,
    pub bars_15m: Store<(Ticker, String), Vec<OhlcBar>>,
}

impl<G> MemCache<G> {
    /// Empty caches.
    pub fn new() -> (r: Self)
        ensures
            r.gex@ == Map::<(Ticker, Seq<char>), G>::empty(),
            r.bars@ == Map::<(Ticker, Seq<char>), Vec<OhlcBar>>::empty(),
            r.bars_15m@ == Map::<(Ticker, Seq<char>), Vec<OhlcBar>>::empty(),
    {
        MemCache { gex: Store::new(), bars: Store::new(), bars_15m: Store::new() }
    }
}

/// What a store holds under `(ticker, text)`, as an option.
pub open spec fn held<V>(m: Map<(Ticker, Seq<char>), V>, ticker: Ticker, text: Seq<char>) -> Option<V> {
    if m.contains_key((ticker, text)) {
        Some(m[(ticker, text)])
    } else {
        None
    }
}

/// The store after putting each entry in turn (a later entry wins).
pub open spec fn put_all<V>(m: Map<(Ticker, Seq<char>), V>, s: Seq<(Ticker, String, V)>) -> Map<(Ticker, Seq<char>), V>
    decreases s.len(),
{
    if s.len() == 0 {
        m
    } else {
        put_all(m, s.drop_last()).insert((s.last().0, s.last().1@), s.last().2)
    }
}

/// The option of a reference, as an option of the value.
pub open spec fn deref_opt<V>(r: Option<&V>) -> Option<V> {
    match r {
        Some(v) => Some(*v),
        None => None,
    }
}

/// The GEX map cached for a ticker and month.
pub fn get_gex<'a, G>(cache: &'a MemCache<G>, ticker: Ticker, month: &str) -> (r: Option<&'a G>)
    ensures
        deref_opt(r) == held(cache.gex@, ticker, month@),
{
    cache.gex.get(&(ticker, owned(month)))
}

/// Cache the GEX map of a ticker and month.
pub fn put_gex<G>(cache: &mut MemCache<G>, ticker: Ticker, month: &str, data: G)
    ensures
        maps_of(*final(cache)) == apply_op(maps_of(*old(cache)), CacheOp::PutGex(ticker, month@, data)),
        final(cache).gex@ == old(cache).gex@.insert((ticker, month@), data),
        final(cache).bars@ == old(cache).bars@,
        final(cache).bars_15m@ == old(cache).bars_15m@,
{
    cache.gex.put((ticker, owned(month)), data);
}

/// The 1-minute bars cached for a ticker and date.
pub fn get_bars<'a, G>(cache: &'a MemCache<G>, ticker: Ticker, date: &str) -> (r: Option<&'a Vec<OhlcBar>>)
    ensures
        deref_opt(r) == held(cache.bars@, ticker, date@),
{
    cache.bars.get(&(ticker, owned(date)))
}

/// The strategy-interval bars cached for a ticker and date.
pub fn get_bars_15m<'a, G>(cache: &'a MemCache<G>, ticker: Ticker, date: &str) -> (r: Option<&'a Vec<OhlcBar>>)
    ensures
        deref_opt(r) == held(cache.bars_15m@, ticker, date@),
{
    cache.bars_15m.get(&(ticker, owned(date)))
}

/// Cache the strategy-interval bars of a ticker and date.
pub fn put_bars_15m<G>(cache: &mut MemCache<G>, ticker: Ticker, date: &str, data: Vec<OhlcBar>)
    ensures
        maps_of(*final(cache)) == apply_op(maps_of(*old(cache)), CacheOp::PutBars15m(ticker, date@, data)),
        final(cache).bars_15m@ == old(cache).bars_15m@.insert((ticker, date@), data),
        final(cache).gex@ == old(cache).gex@,
        final(cache).bars@ == old(cache).bars@,
{
    cache.bars_15m.put((ticker, owned(date)), data);
}

/// Cache the 1-minute bars of a ticker and date.
pub fn put_bars<G>(cache: &mut MemCache<G>, ticker: Ticker, date: &str, data: Vec<OhlcBar>)
    ensures
        maps_of(*final(cache)) == apply_op(maps_of(*old(cache)), CacheOp::PutBars(ticker, date@, data)),
        final(cache).bars@ == old(cache).bars@.insert((ticker, date@), data),
        final(cache).gex@ == old(cache).gex@,
        final(cache).bars_15m@ == old(cache).bars_15m@,
{
    cache.bars.put((ticker, owned(date)), data);
}

/// Move every item of `v` into a stack, last first.
pub(crate) fn reversed<T>(v: Vec<T>) -> (r: Vec<T>)
    ensures
        r@.len() == v@.len(),
        forall|k: int| 0 <= k < r@.len() ==> #[trigger] r@[k] == v@[v@.len() - 1 - k],
{
    let ghost all = v@;
    let mut rest = v;
    let mut stack: Vec<T> = Vec::new();
    while rest.len() > 0
        invariant
            rest@ == all.subrange(0, rest@.len() as int),
            stack@.len() == all.len() - rest@.len(),
            forall|k: int| 0 <= k < stack@.len() ==> #[trigger] stack@[k] == all[all.len() - 1 - k],
        decreases rest@.len(),
    {
        let x = rest.pop().unwrap();
        stack.push(x);
    }
    stack
}

/// Cache many days of 1-minute bars at once, in order.
pub fn put_bars_bulk<G>(cache: &mut MemCache<G>, entries: Vec<(Ticker, String, Vec<OhlcBar>)>)
    ensures
        maps_of(*final(cache)) == apply_op(maps_of(*old(cache)), CacheOp::PutBarsBulk(entries@)),
        final(cache).bars@ == put_all(old(cache).bars@, entries@),
        final(cache).gex@ == old(cache).gex@,
        final(cache).bars_15m@ == old(cache).bars_15m@,
{
    let ghost all = entries@;
    let mut stack = reversed(entries);
    while stack.len() > 0
        invariant
            stack@.len() <= all.len(),
            forall|k: int| 0 <= k < stack@.len() ==> #[trigger] stack@[k] == all[all.len() - 1 - k],
            cache.bars@ == put_all(old(cache).bars@, all.take(all.len() - stack@.len())),
            cache.gex@ == old(cache).gex@,
            cache.bars_15m@ == old(cache).bars_15m@,
        decreases stack@.len(),
    {
        let ghost n = all.len() - stack@.len();
        let (t, d, data) = stack.pop().unwrap();
        proof {
            assert(all.take(n + 1).drop_last() =~= all.take(n));
        }
        cache.bars.put((t, d), data);
    }
    proof {
        assert(all.take(all.len() as int) =~= all);
    }
}

/// Cache many months of GEX maps at once, in order.
pub fn put_gex_bulk<G>(cache: &mut MemCache<G>, entries: Vec<(Ticker, String, G)>)
    ensures
        maps_of(*final(cache)) == apply_op(maps_of(*old(cache)), CacheOp::PutGexBulk(entries@)),
        final(cache).gex@ == put_all(old(cache).gex@, entries@),
        final(cache).bars@ == old(cache).bars@,
        final(cache).bars_15m@ == old(cache).bars_15m@,
{
    let ghost all = entries@;
    let mut stack = reversed(entries);
    while stack.len() > 0
        invariant
            stack@.len() <= all.len(),
            forall|k: int| 0 <= k < stack@.len() ==> #[trigger] stack@[k] == all[all.len() - 1 - k],
            cache.gex@ == put_all(old(cache).gex@, all.take(all.len() - stack@.len())),
            cache.bars@ == old(cache).bars@,
            cache.bars_15m@ == old(cache).bars_15m@,
        decreases stack@.len(),
    {
        let ghost n = all.len() - stack@.len();
        let (t, m, data) = stack.pop().unwrap();
        proof {
            assert(all.take(n + 1).drop_last() =~= all.take(n));
        }
        cache.gex.put((t, m), data);
    }
    proof {
        assert(all.take(all.len() as int) =~= all);
    }
}

/// Drop the cached GEX map of a ticker and month.
pub fn evict_gex<G>(cache: &mut MemCache<G>, ticker: Ticker, month: &str)
    ensures
        maps_of(*final(cache)) == apply_op(maps_of(*old(cache)), CacheOp::EvictGex(ticker, month@)),
        final(cache).gex@ == old(cache).gex@.remove((ticker, month@)),
        final(cache).bars@ == old(cache).bars@,
        final(cache).bars_15m@ == old(cache).bars_15m@,
{
    cache.gex.remove(&(ticker, owned(month)));
}

// ─── Laws over sequences of cache operations ────────────────────────────────

/// The three stores of a cache, as maps: GEX, 1-minute bars, strategy bars.
pub type CacheMaps<G> = (
    Map<(Ticker, Seq<char>), G>,
    Map<(Ticker, Seq<char>), Vec<OhlcBar>>,
    Map<(Ticker, Seq<char>), Vec<OhlcBar>>,
);

/// The maps of a cache.
pub open spec fn maps_of<G>(c: MemCache<G>) -> CacheMaps<G> {
    (c.gex@, c.bars@, c.bars_15m@)
}

/// One operation that changes a cache.
pub enum CacheOp<G> {
    PutGex(Ticker, Seq<char>, G),
    PutGexBulk(Seq<(Ticker, String, G)>),
    EvictGex(Ticker, Seq<char>),
    PutBars(Ticker, Seq<char>, Vec<OhlcBar>),
    PutBarsBulk(Seq<(Ticker, String, Vec<OhlcBar>)>),
    PutBars15m(Ticker, Seq<char>, Vec<OhlcBar>),
}

/// The cache after one operation, as the operation's function states it.
pub open spec fn apply_op<G>(m: CacheMaps<G>, op: CacheOp<G>) -> CacheMaps<G> {
    match op {
        CacheOp::PutGex(t, k, x) => (m.0.insert((t, k), x), m.1, m.2),
        CacheOp::PutGexBulk(s) => (put_all(m.0, s), m.1, m.2),
        CacheOp::EvictGex(t, k) => (m.0.remove((t, k)), m.1, m.2),
        CacheOp::PutBars(t, k, x) => (m.0, m.1.insert((t, k), x), m.2),
        CacheOp::PutBarsBulk(s) => (m.0, put_all(m.1, s), m.2),
        CacheOp::PutBars15m(t, k, x) => (m.0, m.1, m.2.insert((t, k), x)),
    }
}

/// The cache after the operations, in order.
pub open spec fn apply_ops<G>(m: CacheMaps<G>, ops: Seq<CacheOp<G>>) -> CacheMaps<G>
    decreases ops.len(),
{
    if ops.len() == 0 {
        m
    } else {
        apply_op(apply_ops(m, ops.drop_last()), ops.last())
    }
}

/// Some entry of `s` is keyed `key`.
pub open spec fn keyed<V>(s: Seq<(Ticker, String, V)>, key: (Ticker, Seq<char>)) -> bool {
    exists|i: int| 0 <= i < s.len() && (#[trigger] s[i]).0 == key.0 && s[i].1@ == key.1
}

/// Whether an operation writes or drops the GEX entry under `key`.
pub open spec fn touches_gex<G>(op: CacheOp<G>, key: (Ticker, Seq<char>)) -> bool {
    match op {
        CacheOp::PutGex(t, k, _) => (t, k) == key,
        CacheOp::PutGexBulk(s) => keyed(s, key),
        CacheOp::EvictGex(t, k) => (t, k) == key,
        _ => false,
    }
}

/// Whether an operation writes the 1-minute bar store.
pub open spec fn writes_bars<G>(op: CacheOp<G>) -> bool {
    op is PutBars || op is PutBarsBulk
}

/// Whether an operation writes the strategy-bar store.
pub open spec fn writes_bars_15m<G>(op: CacheOp<G>) -> bool {
    op is PutBars15m
}

/// Entries not keyed `key` leave it as it was.
proof fn lemma_put_all_other<V>(m: Map<(Ticker, Seq<char>), V>, s: Seq<(Ticker, String, V)>, key: (Ticker, Seq<char>))
    requires
        !keyed(s, key),
    ensures
        put_all(m, s).contains_key(key) == m.contains_key(key),
        m.contains_key(key) ==> put_all(m, s)[key] == m[key],
    decreases s.len(),
{
    if s.len() > 0 {
        assert(!keyed(s.drop_last(), key)) by {
            if keyed(s.drop_last(), key) {
                let i = choose|i: int| 0 <= i < s.drop_last().len() && (#[trigger] s.drop_last()[i]).0 == key.0
                    && s.drop_last()[i].1@ == key.1;
                assert(s[i] == s.drop_last()[i]);
            }
        }
        assert(s[s.len() - 1] == s.last());
        lemma_put_all_other(m, s.drop_last(), key);
    }
}

/// A GEX map put under a key is what `get_gex` finds there after any later
/// operations that do not write or drop that key (whatever they do to other
/// keys or to the bar stores); and the put leaves every other key as it was.
pub proof fn law_gex_read_after_write<G>(m: CacheMaps<G>, t: Ticker, k: Seq<char>, x: G, ops: Seq<CacheOp<G>>, q: (Ticker, Seq<char>))
    requires
        forall|i: int| 0 <= i < ops.len() ==> !touches_gex(#[trigger] ops[i], (t, k)),
    ensures
        apply_ops(apply_op(m, CacheOp::PutGex(t, k, x)), ops).0.contains_key((t, k)),
        apply_ops(apply_op(m, CacheOp::PutGex(t, k, x)), ops).0[(t, k)] == x,
        q != (t, k) ==> held(apply_op(m, CacheOp::PutGex(t, k, x)).0, q.0, q.1) == held(m.0, q.0, q.1),
    decreases ops.len(),
{
    if ops.len() > 0 {
        let p = ops.drop_last();
        assert forall|i: int| 0 <= i < p.len() implies !touches_gex(#[trigger] p[i], (t, k)) by {
            assert(p[i] == ops[i]);
        }
        law_gex_read_after_write(m, t, k, x, p, q);
        let before = apply_ops(apply_op(m, CacheOp::PutGex(t, k, x)), p);
        assert(!touches_gex(ops[ops.len() - 1], (t, k)));
        match ops.last() {
            CacheOp::PutGexBulk(s) => {
                lemma_put_all_other(before.0, s, (t, k));
            },
            _ => {},
        }
    }
}

/// Writes to one bar store leave the other as it was, over any number of
/// operations: without strategy-bar writes the strategy-bar store is
/// unchanged, and without 1-minute writes the 1-minute store is.
pub proof fn law_bar_stores_independent<G>(m: CacheMaps<G>, ops: Seq<CacheOp<G>>)
    ensures
        (forall|i: int| 0 <= i < ops.len() ==> !writes_bars_15m(#[trigger] ops[i])) ==> apply_ops(m, ops).2 == m.2,
        (forall|i: int| 0 <= i < ops.len() ==> !writes_bars(#[trigger] ops[i])) ==> apply_ops(m, ops).1 == m.1,
    decreases ops.len(),
{
    if ops.len() > 0 {
        let p = ops.drop_last();
        law_bar_stores_independent(m, p);
        if forall|i: int| 0 <= i < ops.len() ==> !writes_bars_15m(#[trigger] ops[i]) {
            assert forall|i: int| 0 <= i < p.len() implies !writes_bars_15m(#[trigger] p[i]) by {
                assert(p[i] == ops[i]);
            }
            assert(!writes_bars_15m(ops[ops.len() - 1]));
        }
        if forall|i: int| 0 <= i < ops.len() ==> !writes_bars(#[trigger] ops[i]) {
            assert forall|i: int| 0 <= i < p.len() implies !writes_bars(#[trigger] p[i]) by {
                assert(p[i] == ops[i]);
            }
            assert(!writes_bars(ops[ops.len() - 1]));
        }
    }
}

/// After a bulk put, a key holds the value of its last entry, and a key
/// with no entry keeps what it held.
pub proof fn law_bulk_last_entry_wins<V>(m: Map<(Ticker, Seq<char>), V>, s: Seq<(Ticker, String, V)>, i: int, q: (Ticker, Seq<char>))
    requires
        0 <= i < s.len(),
        forall|j: int| i < j < s.len() ==> !((#[trigger] s[j]).0 == s[i].0 && s[j].1@ == s[i].1@),
    ensures
        put_all(m, s).contains_key((s[i].0, s[i].1@)),
        put_all(m, s)[(s[i].0, s[i].1@)] == s[i].2,
        !keyed(s, q) ==> held(put_all(m, s), q.0, q.1) == held(m, q.0, q.1),
    decreases s.len(),
{
    let key = (s[i].0, s[i].1@);
    if !keyed(s, q) {
        lemma_put_all_other(m, s, q);
    }
    if i == s.len() - 1 {
    } else {
        let p = s.drop_last();
        assert forall|j: int| i < j < p.len() implies !((#[trigger] p[j]).0 == p[i].0 && p[j].1@ == p[i].1@) by {
            assert(p[j] == s[j]);
        }
        assert(p[i] == s[i]);
        law_bulk_last_entry_wins(m, p, i, q);
        let l = s[s.len() - 1];
        assert(!(l.0 == s[i].0 && l.1@ == s[i].1@));
        assert((l.0, l.1@) != key);
    }
}

} // verus!
