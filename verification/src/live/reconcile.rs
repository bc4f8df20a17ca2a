//! Reconciliation of local position state with what the broker reports.
//!
//! Prices are in cents and positions in whole shares; the broker's maps by
//! symbol are handed over as lists of `(symbol, value)` pairs.

use vstd::prelude::*;
use crate::broker::BracketOrderIds;
use crate::config::tickers::{ticker_name, Ticker};
use crate::types::Signal;
use crate::text::{contains, seq_contains, str_eq, to_uppercase, uppercase_text};

verus! {

/// Broker position for one symbol.
#[derive(Debug, Clone, Copy, PartialEq, Eq)]
pub struct IbkrPositionSnapshot {
    pub shares: i64,
    pub avg_cost: i64,
}

/// Broker open order for one symbol.
#[derive(Debug, Clone)]
pub struct IbkrOrderSnapshot {
    pub order_id: i32,
    pub action: String,
    pub order_type: String,
    pub limit_price: Option<i64>,
    pub aux_price: Option<i64>,
    pub quantity: i64,
    pub status: String,
}

/// A sell order.
pub open spec fn is_sell(o: IbkrOrderSnapshot) -> bool {
    o.action@ == "Sell"@
}

/// A sell order whose type, in upper case, names a stop (`STP`).
pub open spec fn is_stop_order(o: IbkrOrderSnapshot) -> bool {
    is_sell(o) && seq_contains(uppercase_text(o.order_type@), "STP"@)
}

/// A sell order whose type, in upper case, names a limit (`LMT`) but no stop.
pub open spec fn is_take_profit_order(o: IbkrOrderSnapshot) -> bool {
    is_sell(o) && !seq_contains(uppercase_text(o.order_type@), "STP"@) && seq_contains(
        uppercase_text(o.order_type@),
        "LMT"@,
    )
}

/// Price by which stops are ranked: the stop (aux) price, 0 when missing.
pub open spec fn stop_rank_price(o: IbkrOrderSnapshot) -> i64 {
    match o.aux_price {
        Some(p) => p,
        None => 0,
    }
}

/// Where stop `x` goes among the ranked stops `t`, searching from `k`: after
/// every stop priced at least as high.
pub open spec fn stop_insert_pos(s: Seq<IbkrOrderSnapshot>, t: Seq<usize>, x: int, k: int) -> int
    decreases t.len() - k,
{
    if 0 <= k < t.len() && stop_rank_price(s[t[k] as int]) >= stop_rank_price(s[x]) {
        stop_insert_pos(s, t, x, k + 1)
    } else {
        k
    }
}

/// Indices of the stop orders among the first `n`, highest stop price first;
/// stops of equal price keep their order.
pub open spec fn ranked_stops(s: Seq<IbkrOrderSnapshot>, n: int) -> Seq<usize>
    decreases n,
{
    if n <= 0 {
        Seq::empty()
    } else {
        let r = ranked_stops(s, n - 1);
        if is_stop_order(s[n - 1]) {
            r.insert(stop_insert_pos(s, r, n - 1, 0), (n - 1) as usize)
        } else {
            r
        }
    }
}

/// Index of the first take-profit order at or after `k`.
pub open spec fn first_take_profit(s: Seq<IbkrOrderSnapshot>, k: int) -> Option<int>
    decreases s.len() - k,
{
    if 0 <= k < s.len() {
        if is_take_profit_order(s[k]) {
            Some(k)
        } else {
            first_take_profit(s, k + 1)
        }
    } else {
        None
    }
}

/// Order ids of the sell orders among the first `n`.
pub open spec fn sell_ids(s: Seq<IbkrOrderSnapshot>, n: int) -> Seq<i32>
    decreases n,
{
    if n <= 0 {
        Seq::empty()
    } else if is_sell(s[n - 1]) {
        sell_ids(s, n - 1).push(s[n - 1].order_id)
    } else {
        sell_ids(s, n - 1)
    }
}

/// Bounds of `stop_insert_pos`.
proof fn lemma_stop_insert_pos_bounds(s: Seq<IbkrOrderSnapshot>, t: Seq<usize>, x: int, k: int)
    requires
        0 <= k <= t.len(),
    ensures
        k <= stop_insert_pos(s, t, x, k) <= t.len(),
    decreases t.len() - k,
{
    if k < t.len() && stop_rank_price(s[t[k] as int]) >= stop_rank_price(s[x]) {
        lemma_stop_insert_pos_bounds(s, t, x, k + 1);
    }
}

/// Every ranked index is below `n`, and the ranking is as long as it says.
proof fn lemma_ranked_stops_indices(s: Seq<IbkrOrderSnapshot>, n: int)
    requires
        0 <= n <= s.len(),
        s.len() <= usize::MAX,
    ensures
        forall|i: int| 0 <= i < ranked_stops(s, n).len() ==> (#[trigger] ranked_stops(s, n)[i]) < n,
        ranked_stops(s, n).len() <= n,
    decreases n,
{
    if n > 0 {
        lemma_ranked_stops_indices(s, n - 1);
        let r = ranked_stops(s, n - 1);
        if is_stop_order(s[n - 1]) {
            lemma_stop_insert_pos_bounds(s, r, n - 1, 0);
            let p = stop_insert_pos(s, r, n - 1, 0);
            assert forall|i: int| 0 <= i < ranked_stops(s, n).len() implies (#[trigger] ranked_stops(
                s,
                n,
            )[i]) < n by {
                if i < p {
                    assert(ranked_stops(s, n)[i] == r[i]);
                } else if i > p {
                    assert(ranked_stops(s, n)[i] == r[i - 1]);
                }
            }
        }
    }
}

/// Price ranking key of an order.
fn stop_key(o: &IbkrOrderSnapshot) -> (r: i64)
    ensures
        r == stop_rank_price(*o),
{
    match o.aux_price {
        Some(p) => p,
        None => 0,
    }
}

/// The stop-loss, take-profit and extra stop ids as stated by [`find_bracket_orders`].
pub open spec fn bracket_of(s: Seq<IbkrOrderSnapshot>) -> (Option<IbkrOrderSnapshot>, Option<IbkrOrderSnapshot>, Seq<i32>) {
    let st = ranked_stops(s, s.len() as int);
    (
        if st.len() > 0 { Some(s[st[0] as int]) } else { None },
        match first_take_profit(s, 0) {
            Some(k) => Some(s[k]),
            None => None,
        },
        if st.len() > 0 {
            st.skip(1).map_values(|k: usize| s[k as int].order_id)
        } else {
            Seq::empty()
        },
    )
}

/// From one symbol's open orders, pick the sell bracket: the stop with the
/// highest stop price (the latest ratchet) and the first limit order, and list
/// the ids of the other stops, highest price first, as extras to cancel.
pub fn find_bracket_orders(orders: &[IbkrOrderSnapshot]) -> (r: (
    Option<&IbkrOrderSnapshot>,
    Option<&IbkrOrderSnapshot>,
    Vec<i32>,
))
    ensures
        ({
            let b = bracket_of(orders@);
            &&& (match r.0 {
                Some(o) => b.0 == Some(*o),
                None => b.0.is_none(),
            })
            &&& (match r.1 {
                Some(o) => b.1 == Some(*o),
                None => b.1.is_none(),
            })
            &&& r.2@ == b.2
        }),
{
    let ghost s = orders@;
    let n = orders.len();
    let mut stops: Vec<usize> = Vec::new();
    let mut tp: Option<usize> = None;
    let mut i: usize = 0;
    while i < n
        invariant
            n == orders.len(),
            s == orders@,
            i <= n,
            stops@ == ranked_stops(s, i as int),
            first_take_profit(s, 0) == (match tp {
                Some(k) => Some(k as int),
                None => first_take_profit(s, i as int),
            }),
            tp matches Some(k) ==> k < i,
        decreases n - i,
    {
        let o = &orders[i];
        if str_eq(o.action.as_str(), "Sell") {
            let otype = to_uppercase(o.order_type.as_str());
            if contains(otype.as_str(), "STP") {
                let key = stop_key(o);
                let mut j: usize = 0;
                proof {
                    lemma_ranked_stops_indices(s, i as int);
                }
                while j < stops.len() && stop_key(&orders[stops[j]]) >= key
                    invariant
                        n == orders.len(),
                        s == orders@,
                        i < n,
                        key == stop_rank_price(s[i as int]),
                        stops@ == ranked_stops(s, i as int),
                        forall|q: int| 0 <= q < stops@.len() ==> (#[trigger] stops@[q]) < i,
                        j <= stops.len(),
                        stop_insert_pos(s, stops@, i as int, j as int) == stop_insert_pos(
                            s,
                            stops@,
                            i as int,
                            0,
                        ),
                    decreases stops.len() - j,
                {
                    j = j + 1;
                }
                proof {
                    lemma_stop_insert_pos_bounds(s, stops@, i as int, 0);
                }
                stops.insert(j, i);
            } else if contains(otype.as_str(), "LMT") && tp.is_none() {
                tp = Some(i);
            }
        }
        proof {
            if tp.is_none() {
                assert(first_take_profit(s, i as int) == if is_take_profit_order(s[i as int]) {
                    Some(i as int)
                } else {
                    first_take_profit(s, i + 1)
                });
            }
        }
        i = i + 1;
    }
    let ghost st = stops@;
    proof {
        lemma_ranked_stops_indices(s, n as int);
        assert(first_take_profit(s, n as int).is_none());
    }
    let sl: Option<&IbkrOrderSnapshot> = if stops.len() > 0 {
        Some(&orders[stops[0]])
    } else {
        None
    };
    let tpo: Option<&IbkrOrderSnapshot> = match tp {
        Some(k) => Some(&orders[k]),
        None => None,
    };
    let mut extra: Vec<i32> = Vec::new();
    let mut q: usize = 1;
    proof {
        if st.len() >= 1 {
            assert(st.subrange(1, 1).map_values(|k: usize| s[k as int].order_id) =~= Seq::<i32>::empty());
        }
    }
    while q < stops.len()
        invariant
            n == orders.len(),
            s == orders@,
            st == stops@,
            st == ranked_stops(s, n as int),
            forall|k: int| 0 <= k < st.len() ==> (#[trigger] st[k]) < n,
            1 <= q,
            st.len() >= 1 ==> q <= st.len(),
            st.len() == 0 ==> q == 1 && extra@ == Seq::<i32>::empty(),
            st.len() >= 1 ==> extra@ == st.subrange(1, q as int).map_values(
                |k: usize| s[k as int].order_id,
            ),
        decreases stops.len() - q,
    {
        extra.push(orders[stops[q]].order_id);
        q = q + 1;
        proof {
            assert(extra@ =~= st.subrange(1, q as int).map_values(|k: usize| s[k as int].order_id));
        }
    }
    proof {
        if st.len() >= 1 {
            assert(st.skip(1) =~= st.subrange(1, st.len() as int));
        }
    }
    (sl, tpo, extra)
}

/// Stop prices never increase along the ranking `t` of `s`.
pub open spec fn stops_descending(s: Seq<IbkrOrderSnapshot>, t: Seq<usize>) -> bool {
    forall|i: int, j: int| 0 <= i < j < t.len() ==> stop_rank_price(s[#[trigger] t[i] as int]) >= stop_rank_price(
        s[#[trigger] t[j] as int],
    )
}

/// Everything before the insertion point of stop `x` is priced at least as
/// high; everything from it on is priced lower.
proof fn lemma_stop_insert_pos_split(s: Seq<IbkrOrderSnapshot>, t: Seq<usize>, x: int, k: int)
    requires
        0 <= k <= t.len(),
        stops_descending(s, t),
        forall|i: int| 0 <= i < k ==> stop_rank_price(s[#[trigger] t[i] as int]) >= stop_rank_price(s[x]),
    ensures
        forall|i: int| 0 <= i < stop_insert_pos(s, t, x, k) ==> stop_rank_price(s[#[trigger] t[i] as int]) >= stop_rank_price(s[x]),
        forall|i: int| stop_insert_pos(s, t, x, k) <= i < t.len() ==> stop_rank_price(s[#[trigger] t[i] as int]) < stop_rank_price(s[x]),
    decreases t.len() - k,
{
    if k < t.len() && stop_rank_price(s[t[k] as int]) >= stop_rank_price(s[x]) {
        lemma_stop_insert_pos_split(s, t, x, k + 1);
    } else if k < t.len() {
        assert forall|i: int| k <= i < t.len() implies stop_rank_price(s[#[trigger] t[i] as int]) < stop_rank_price(s[x]) by {
            if i > k {
                assert(stop_rank_price(s[t[k] as int]) >= stop_rank_price(s[t[i] as int]));
            }
        }
    }
}

/// The ranking is in descending stop-price order and lists every stop order.
proof fn lemma_ranked_stops_props(s: Seq<IbkrOrderSnapshot>, n: int)
    requires
        0 <= n <= s.len(),
        s.len() <= usize::MAX,
    ensures
        stops_descending(s, ranked_stops(s, n)),
        forall|k: int| 0 <= k < n && is_stop_order(#[trigger] s[k]) ==> exists|p: int|
            0 <= p < ranked_stops(s, n).len() && ranked_stops(s, n)[p] == k,
    decreases n,
{
    if n > 0 {
        lemma_ranked_stops_props(s, n - 1);
        let r = ranked_stops(s, n - 1);
        if is_stop_order(s[n - 1]) {
            let x = n - 1;
            lemma_stop_insert_pos_bounds(s, r, x, 0);
            lemma_stop_insert_pos_split(s, r, x, 0);
            let p = stop_insert_pos(s, r, x, 0);
            let t = ranked_stops(s, n);
            assert(t == r.insert(p, x as usize));
            assert forall|i: int, j: int| 0 <= i < j < t.len() implies stop_rank_price(s[#[trigger] t[i] as int])
                >= stop_rank_price(s[#[trigger] t[j] as int]) by {
                if j < p {
                    assert(t[i] == r[i] && t[j] == r[j]);
                } else if j == p {
                    assert(t[i] == r[i]);
                } else if i < p {
                    assert(t[i] == r[i] && t[j] == r[j - 1]);
                } else if i == p {
                    assert(t[j] == r[j - 1]);
                } else {
                    assert(t[i] == r[i - 1] && t[j] == r[j - 1]);
                }
            }
            assert forall|k: int| 0 <= k < n && is_stop_order(#[trigger] s[k]) implies exists|q: int|
                0 <= q < t.len() && t[q] == k by {
                if k == n - 1 {
                    assert(t[p] == k);
                } else {
                    let q0 = choose|q: int| 0 <= q < r.len() && r[q] == k;
                    if q0 < p {
                        assert(t[q0] == k);
                    } else {
                        assert(t[q0 + 1] == k);
                    }
                }
            }
        }
    }
}

/// The stop-loss picked from a symbol's orders is a stop priced at least as
/// high as every stop order there (so stale ratchets are the extras).
pub proof fn law_bracket_picks_highest_stop(s: Seq<IbkrOrderSnapshot>, k: int)
    requires
        0 <= k < s.len(),
        s.len() <= usize::MAX,
        is_stop_order(s[k]),
    ensures
        bracket_of(s).0 matches Some(o) && is_stop_order(o) && stop_rank_price(o) >= stop_rank_price(s[k]),
{
    let n = s.len() as int;
    lemma_ranked_stops_props(s, n);
    lemma_ranked_stops_stops(s, n);
    let t = ranked_stops(s, n);
    let p = choose|p: int| 0 <= p < t.len() && t[p] == k;
    if p > 0 {
        assert(stop_rank_price(s[t[0] as int]) >= stop_rank_price(s[t[p] as int]));
    }
}

/// Every ranked index is that of a stop order.
proof fn lemma_ranked_stops_stops(s: Seq<IbkrOrderSnapshot>, n: int)
    requires
        0 <= n <= s.len(),
        s.len() <= usize::MAX,
    ensures
        forall|p: int| 0 <= p < ranked_stops(s, n).len() ==> is_stop_order(s[#[trigger] ranked_stops(s, n)[p] as int]),
    decreases n,
{
    if n > 0 {
        lemma_ranked_stops_stops(s, n - 1);
        let r = ranked_stops(s, n - 1);
        if is_stop_order(s[n - 1]) {
            lemma_stop_insert_pos_bounds(s, r, n - 1, 0);
            let p = stop_insert_pos(s, r, n - 1, 0);
            let t = ranked_stops(s, n);
            assert forall|q: int| 0 <= q < t.len() implies is_stop_order(s[#[trigger] t[q] as int]) by {
                if q < p {
                    assert(t[q] == r[q]);
                } else if q > p {
                    assert(t[q] == r[q - 1]);
                }
            }
        }
    }
}

/// What to do after comparing local state with the broker for one ticker.
#[derive(Debug)]
pub enum ReconcileAction {
    /// Local state and the broker agree.
    Consistent,
    /// Locally flat while the broker holds shares: adopt the position.
    AdoptPosition {
        shares: i64,
        avg_cost: i64,
        sl_order_id: Option<i32>,
        sl_price: i64,
        tp_order_id: Option<i32>,
        tp_price: i64,
        extra_stop_ids: Vec<i32>,
    },
    /// Locally holding while the broker is flat: closed elsewhere.
    PositionGone,
    /// Both hold, but the local bracket ids are stale, or stale stops remain.
    BracketStale {
        sl_order_id: Option<i32>,
        sl_price: i64,
        tp_order_id: Option<i32>,
        tp_price: i64,
        extra_stop_ids: Vec<i32>,
    },
    /// Both flat, but sell orders are left at the broker: cancel them.
    OrphanedOrders { order_ids: Vec<i32> },
}

/// Local state of one ticker, as reconciliation sees it.
pub struct LocalTickerView {
    pub ticker: Ticker,
    pub has_position: bool,
    pub bracket_sl: Option<i32>,
    pub bracket_tp: Option<i32>,
}

/// Index of the first entry of `m` keyed `key`, searching from `k`.
pub open spec fn entry_for<V>(m: Seq<(String, V)>, key: Seq<char>, k: int) -> Option<int>
    decreases m.len() - k,
{
    if 0 <= k < m.len() {
        if m[k].0@ == key {
            Some(k)
        } else {
            entry_for(m, key, k + 1)
        }
    } else {
        None
    }
}

/// The value keyed `key` in `m`, when there is one.
pub open spec fn value_for<V>(m: Seq<(String, V)>, key: Seq<char>) -> Option<V> {
    match entry_for(m, key, 0) {
        Some(k) => Some(m[k].1),
        None => None,
    }
}

/// Index of the first entry keyed `key`.
fn find_entry<V>(m: &[(String, V)], key: &str) -> (r: Option<usize>)
    ensures
        match r {
            Some(k) => entry_for(m@, key@, 0) == Some(k as int) && k < m@.len(),
            None => entry_for(m@, key@, 0).is_none(),
        },
{
    let mut k: usize = 0;
    while k < m.len()
        invariant
            k <= m@.len(),
            entry_for(m@, key@, 0) == entry_for(m@, key@, k as int),
        decreases m.len() - k,
    {
        if str_eq(m[k].0.as_str(), key) {
            return Some(k);
        }
        k = k + 1;
    }
    None
}

/// Option id of an order.
pub open spec fn id_of(o: Option<IbkrOrderSnapshot>) -> Option<i32> {
    match o {
        Some(x) => Some(x.order_id),
        None => None,
    }
}

/// Stop price of an order, 0 when either is missing.
pub open spec fn stop_price_of(o: Option<IbkrOrderSnapshot>) -> i64 {
    match o {
        Some(x) => match x.aux_price {
            Some(p) => p,
            None => 0,
        },
        None => 0,
    }
}

/// Limit price of an order, 0 when either is missing.
pub open spec fn limit_price_of(o: Option<IbkrOrderSnapshot>) -> i64 {
    match o {
        Some(x) => match x.limit_price {
            Some(p) => p,
            None => 0,
        },
        None => 0,
    }
}

/// The reconciliation decision for local state `v`, the broker position
/// `pos` and the broker orders `os` of the ticker's symbol.
pub open spec fn reconcile_decides(
    v: LocalTickerView,
    pos: Option<IbkrPositionSnapshot>,
    os: Seq<IbkrOrderSnapshot>,
    r: ReconcileAction,
) -> bool {
    let broker_holds = pos matches Some(p) && p.shares >= 1;
    let b = bracket_of(os);
    if !v.has_position && !broker_holds {
        if sell_ids(os, os.len() as int).len() > 0 {
            r matches ReconcileAction::OrphanedOrders { order_ids } && order_ids@ == sell_ids(
                os,
                os.len() as int,
            )
        } else {
            r is Consistent
        }
    } else if !v.has_position {
        &&& r matches ReconcileAction::AdoptPosition {
            shares,
            avg_cost,
            sl_order_id,
            sl_price,
            tp_order_id,
            tp_price,
            extra_stop_ids,
        }
        &&& shares == pos->0.shares
        &&& avg_cost == pos->0.avg_cost
        &&& sl_order_id == id_of(b.0)
        &&& sl_price == stop_price_of(b.0)
        &&& tp_order_id == id_of(b.1)
        &&& tp_price == limit_price_of(b.1)
        &&& extra_stop_ids@ == b.2
    } else if !broker_holds {
        r is PositionGone
    } else if id_of(b.0) == v.bracket_sl && id_of(b.1) == v.bracket_tp && b.2.len() == 0 {
        r is Consistent
    } else {
        &&& r matches ReconcileAction::BracketStale {
            sl_order_id,
            sl_price,
            tp_order_id,
            tp_price,
            extra_stop_ids,
        }
        &&& sl_order_id == id_of(b.0)
        &&& sl_price == stop_price_of(b.0)
        &&& tp_order_id == id_of(b.1)
        &&& tp_price == limit_price_of(b.1)
        &&& extra_stop_ids@ == b.2
    }
}

/// Order ids of the sell orders in `orders`.
fn collect_sell_ids(orders: &[IbkrOrderSnapshot]) -> (r: Vec<i32>)
    ensures
        r@ == sell_ids(orders@, orders@.len() as int),
{
    let mut out: Vec<i32> = Vec::new();
    let mut i: usize = 0;
    while i < orders.len()
        invariant
            i <= orders@.len(),
            out@ == sell_ids(orders@, i as int),
        decreases orders.len() - i,
    {
        if str_eq(orders[i].action.as_str(), "Sell") {
            out.push(orders[i].order_id);
        }
        i = i + 1;
    }
    out
}

/// Id, stop price and limit price of a picked order.
fn order_fields(o: Option<&IbkrOrderSnapshot>) -> (r: (Option<i32>, i64, i64))
    ensures
        ({
            let x = match o {
                Some(p) => Some(*p),
                None => None,
            };
            r == (id_of(x), stop_price_of(x), limit_price_of(x))
        }),
{
    match o {
        Some(p) => (
            Some(p.order_id),
            match p.aux_price {
                Some(a) => a,
                None => 0,
            },
            match p.limit_price {
                Some(l) => l,
                None => 0,
            },
        ),
        None => (None, 0, 0),
    }
}

impl LocalTickerView {
    /// Compare this ticker's local state with the broker's positions and open
    /// orders (each keyed by symbol) and decide what to do.
    pub fn reconcile(
        &self,
        ibkr_positions: &[(String, IbkrPositionSnapshot)],
        ibkr_orders: &[(String, Vec<IbkrOrderSnapshot>)],
    ) -> (r: ReconcileAction)
        ensures
            reconcile_decides(
                *self,
                value_for(ibkr_positions@, ticker_name(self.ticker)),
                match value_for(ibkr_orders@, ticker_name(self.ticker)) {
                    Some(v) => v@,
                    None => Seq::empty(),
                },
                r,
            ),
    {
        let sym = self.ticker.as_str();
        let pos: Option<IbkrPositionSnapshot> = match find_entry(ibkr_positions, sym) {
            Some(k) => Some(ibkr_positions[k].1),
            None => None,
        };
        let empty: Vec<IbkrOrderSnapshot> = Vec::new();
        let os: &[IbkrOrderSnapshot] = match find_entry(ibkr_orders, sym) {
            Some(k) => ibkr_orders[k].1.as_slice(),
            None => empty.as_slice(),
        };
        let broker_holds = match pos {
            Some(p) => p.shares >= 1,
            None => false,
        };
        if !self.has_position && !broker_holds {
            let orphaned = collect_sell_ids(os);
            if orphaned.len() > 0 {
                return ReconcileAction::OrphanedOrders { order_ids: orphaned };
            }
            return ReconcileAction::Consistent;
        }
        if self.has_position && !broker_holds {
            return ReconcileAction::PositionGone;
        }
        let (sl, tp, extra) = find_bracket_orders(os);
        let (sl_id, sl_price, _) = order_fields(sl);
        let (tp_id, _, tp_price) = order_fields(tp);
        if !self.has_position {
            let p = match pos {
                Some(p) => p,
                None => IbkrPositionSnapshot { shares: 0, avg_cost: 0 },
            };
            return ReconcileAction::AdoptPosition {
                shares: p.shares,
                avg_cost: p.avg_cost,
                sl_order_id: sl_id,
                sl_price,
                tp_order_id: tp_id,
                tp_price,
                extra_stop_ids: extra,
            };
        }
        if sl_id == self.bracket_sl && tp_id == self.bracket_tp && extra.len() == 0 {
            ReconcileAction::Consistent
        } else {
            ReconcileAction::BracketStale {
                sl_order_id: sl_id,
                sl_price,
                tp_order_id: tp_id,
                tp_price,
                extra_stop_ids: extra,
            }
        }
    }
}

/// Stop price of an order, 0 when it has none.
pub open spec fn aux_or_zero(o: IbkrOrderSnapshot) -> i64 {
    match o.aux_price {
        Some(p) => p,
        None => 0,
    }
}

/// Limit price of an order, 0 when it has none.
pub open spec fn limit_or_zero(o: IbkrOrderSnapshot) -> i64 {
    match o.limit_price {
        Some(p) => p,
        None => 0,
    }
}

/// The legs reported for a bracket match the symbol's orders `os`: the
/// stop-loss leg is a stop order of `os` priced at its stop (aux) price, the
/// highest among the stops, and the take-profit leg a limit order of `os`
/// priced at its limit price; a missing leg means no such order, at price 0.
pub open spec fn legs_from_orders(os: Seq<IbkrOrderSnapshot>, sl_id: Option<i32>, sl_price: i64, tp_id: Option<i32>, tp_price: i64) -> bool {
    &&& match sl_id {
        Some(id) => exists|k: int|
            0 <= k < os.len() && (#[trigger] os[k]).order_id == id && is_stop_order(os[k]) && sl_price == aux_or_zero(os[k]),
        None => sl_price == 0 && forall|j: int| 0 <= j < os.len() ==> !is_stop_order(#[trigger] os[j]),
    }
    &&& forall|j: int| 0 <= j < os.len() && is_stop_order(#[trigger] os[j]) ==> sl_price >= aux_or_zero(os[j])
    &&& match tp_id {
        Some(id) => exists|k: int|
            0 <= k < os.len() && (#[trigger] os[k]).order_id == id && is_take_profit_order(os[k]) && tp_price
                == limit_or_zero(os[k]),
        None => tp_price == 0 && forall|j: int| 0 <= j < os.len() ==> !is_take_profit_order(#[trigger] os[j]),
    }
}

/// `first_take_profit` finds a take-profit order, or there is none from `k` on.
proof fn lemma_first_take_profit(s: Seq<IbkrOrderSnapshot>, k: int)
    requires
        0 <= k,
    ensures
        match first_take_profit(s, k) {
            Some(i) => k <= i < s.len() && is_take_profit_order(s[i]),
            None => forall|j: int| k <= j < s.len() ==> !is_take_profit_order(#[trigger] s[j]),
        },
    decreases s.len() - k,
{
    if k < s.len() && !is_take_profit_order(s[k]) {
        lemma_first_take_profit(s, k + 1);
    }
}

/// The picked bracket legs are orders of `os` as `legs_from_orders` says.
proof fn lemma_bracket_legs(s: Seq<IbkrOrderSnapshot>)
    requires
        s.len() <= usize::MAX,
    ensures
        legs_from_orders(
            s,
            id_of(bracket_of(s).0),
            stop_price_of(bracket_of(s).0),
            id_of(bracket_of(s).1),
            limit_price_of(bracket_of(s).1),
        ),
{
    let n = s.len() as int;
    lemma_ranked_stops_props(s, n);
    lemma_ranked_stops_stops(s, n);
    lemma_ranked_stops_indices(s, n);
    lemma_first_take_profit(s, 0);
    let t = ranked_stops(s, n);
    let b = bracket_of(s);
    if t.len() > 0 {
        let k = t[0] as int;
        assert(0 <= k < s.len() && s[k].order_id == s[k].order_id && is_stop_order(s[k]));
        assert(stop_price_of(b.0) == aux_or_zero(s[k]));
        assert forall|j: int| 0 <= j < s.len() && is_stop_order(#[trigger] s[j]) implies stop_price_of(b.0)
            >= aux_or_zero(s[j]) by {
            let p = choose|p: int| 0 <= p < t.len() && t[p] == j;
            if p > 0 {
                assert(stop_rank_price(s[t[0] as int]) >= stop_rank_price(s[t[p] as int]));
            }
        }
    } else {
        assert forall|j: int| 0 <= j < s.len() implies !is_stop_order(#[trigger] s[j]) by {
            if is_stop_order(s[j]) {
                let p = choose|p: int| 0 <= p < t.len() && t[p] == j;
            }
        }
    }
    match first_take_profit(s, 0) {
        Some(k) => {
            assert(s[k].order_id == s[k].order_id);
        },
        None => {},
    }
}

/// Whatever branch produced it, an adopted position or a stale bracket
/// reports the stop-loss leg at its stop (aux) price and the take-profit leg
/// at its limit price, both taken from the symbol's own orders, the stop
/// being the highest-priced stop there.
pub proof fn law_reconcile_leg_prices(
    v: LocalTickerView,
    pos: Option<IbkrPositionSnapshot>,
    os: Seq<IbkrOrderSnapshot>,
    r: ReconcileAction,
)
    requires
        reconcile_decides(v, pos, os, r),
        os.len() <= usize::MAX,
    ensures
        r matches ReconcileAction::BracketStale { sl_order_id, sl_price, tp_order_id, tp_price, .. }
            ==> legs_from_orders(os, sl_order_id, sl_price, tp_order_id, tp_price),
        r matches ReconcileAction::AdoptPosition { sl_order_id, sl_price, tp_order_id, tp_price, .. }
            ==> legs_from_orders(os, sl_order_id, sl_price, tp_order_id, tp_price),
{
    lemma_bracket_legs(os);
}

/// The bracket ids a ticker keeps after applying a reconciliation: an adopted
/// position with both legs, or refreshed stale legs, set them; stale legs with
/// a leg missing clear them (to be placed again); otherwise they stay.
pub open spec fn bracket_after(action: ReconcileAction, current: Option<BracketOrderIds>) -> Option<BracketOrderIds> {
    match action {
        ReconcileAction::AdoptPosition { sl_order_id, tp_order_id, .. } => match (sl_order_id, tp_order_id) {
            (Some(sl), Some(tp)) => Some(BracketOrderIds { parent_id: 0, stop_loss_id: sl, take_profit_id: tp }),
            _ => current,
        },
        ReconcileAction::BracketStale { sl_order_id, tp_order_id, .. } => match (sl_order_id, tp_order_id) {
            (Some(sl), Some(tp)) => Some(BracketOrderIds { parent_id: 0, stop_loss_id: sl, take_profit_id: tp }),
            _ => None,
        },
        _ => current,
    }
}

/// Bracket ids after applying `action` to a ticker that holds `current`.
pub fn bracket_after_reconcile(action: &ReconcileAction, current: Option<BracketOrderIds>) -> (r: Option<BracketOrderIds>)
    ensures
        r == bracket_after(*action, current),
{
    match action {
        ReconcileAction::AdoptPosition { sl_order_id, tp_order_id, .. } => match (*sl_order_id, *tp_order_id) {
            (Some(sl), Some(tp)) => Some(BracketOrderIds { parent_id: 0, stop_loss_id: sl, take_profit_id: tp }),
            _ => current,
        },
        ReconcileAction::BracketStale { sl_order_id, tp_order_id, .. } => match (*sl_order_id, *tp_order_id) {
            (Some(sl), Some(tp)) => Some(BracketOrderIds { parent_id: 0, stop_loss_id: sl, take_profit_id: tp }),
            _ => None,
        },
        _ => current,
    }
}

/// The signal an adopted position is held under: the current one, or
/// VannaFlip when flat (so no IV-based exit fires while broker brackets live).
pub fn adopted_holding(current: Signal) -> (r: Signal)
    ensures
        r == (if current == Signal::Flat { Signal::LongVannaFlip } else { current }),
{
    if current.is_flat() {
        Signal::LongVannaFlip
    } else {
        current
    }
}

} // verus!
