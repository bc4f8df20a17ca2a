//! Sets of texts stored as one comma-separated footer value of a cache file.

use vstd::prelude::*;
use vstd::multiset::Multiset;
use crate::text::{concat, lemma_lex_total, lemma_lex_trans, lex_le, owned, str_eq, str_le};

verus! {

/// The texts joined with commas (`""` for none).
pub open spec fn join_commas(t: Seq<Seq<char>>) -> Seq<char>
    decreases t.len(),
{
    if t.len() == 0 {
        Seq::empty()
    } else if t.len() == 1 {
        t[0]
    } else {
        join_commas(t.drop_last()) + ","@ + t.last()
    }
}

/// Position of the last comma in `s` before `n`, if any.
pub open spec fn last_comma(s: Seq<char>, n: int) -> Option<int>
    decreases n,
{
    if n <= 0 {
        None
    } else if s[n - 1] == ',' {
        Some(n - 1)
    } else {
        last_comma(s, n - 1)
    }
}

/// The pieces of `s` between commas, as `str::split(',')` yields them (one
/// empty piece for an empty text).
pub open spec fn split_commas(s: Seq<char>) -> Seq<Seq<char>>
    decreases s.len(),
{
    match last_comma(s, s.len() as int) {
        None => seq![s],
        Some(i) => {
            proof {
                lemma_last_comma_bounds(s, s.len() as int);
            }
            split_commas(s.subrange(0, i)).push(s.subrange(i + 1, s.len() as int))
        },
    }
}

/// Bounds of `last_comma`.
pub proof fn lemma_last_comma_bounds(s: Seq<char>, n: int)
    requires
        n <= s.len(),
    ensures
        last_comma(s, n) matches Some(i) ==> 0 <= i < n && s[i] == ',',
        last_comma(s, n) is None ==> forall|k: int| 0 <= k < n ==> s[k] != ',',
    decreases n,
{
    if n > 0 && s[n - 1] != ',' {
        lemma_last_comma_bounds(s, n - 1);
    }
}

/// A text without commas.
pub open spec fn comma_free(s: Seq<char>) -> bool {
    forall|k: int| 0 <= k < s.len() ==> s[k] != ','
}

/// The last comma of `a + "," + b`, with `b` comma-free, is the one between.
proof fn lemma_last_comma_of_join(a: Seq<char>, b: Seq<char>, n: int)
    requires
        comma_free(b),
        a.len() < n <= a.len() + 1 + b.len(),
    ensures
        last_comma(a + ","@ + b, n) == Some(a.len() as int),
    decreases n,
{
    reveal_strlit(",");
    let s = a + ","@ + b;
    if n - 1 > a.len() {
        assert(s[n - 1] == b[n - 1 - a.len() - 1]);
        lemma_last_comma_of_join(a, b, n - 1);
    } else {
        assert(s[n - 1] == ',');
    }
}

/// Splitting joined comma-free texts gives them back.
pub proof fn law_split_join_roundtrip(t: Seq<Seq<char>>)
    requires
        t.len() >= 1,
        forall|k: int| 0 <= k < t.len() ==> comma_free(#[trigger] t[k]),
    ensures
        split_commas(join_commas(t)) == t,
    decreases t.len(),
{
    if t.len() == 1 {
        let s = t[0];
        lemma_last_comma_bounds(s, s.len() as int);
        if let Some(i) = last_comma(s, s.len() as int) {
            assert(false);
        }
        assert(split_commas(s) =~= t);
    } else {
        let d = t.drop_last();
        assert forall|k: int| 0 <= k < d.len() implies comma_free(#[trigger] d[k]) by {
            assert(d[k] == t[k]);
        }
        law_split_join_roundtrip(d);
        reveal_strlit(",");
        let a = join_commas(d);
        let b = t.last();
        assert(comma_free(t[t.len() - 1]));
        let s = a + ","@ + b;
        assert(join_commas(t) == s);
        lemma_last_comma_of_join(a, b, s.len() as int);
        assert(s.subrange(0, a.len() as int) =~= a);
        assert(s.subrange((a.len() + 1) as int, s.len() as int) =~= b);
        assert(split_commas(s) =~= t);
    }
}

/// The texts of `v` without repeats, first occurrences kept in order.
pub open spec fn dedup_texts(v: Seq<Seq<char>>, n: int) -> Seq<Seq<char>>
    decreases n,
{
    if n <= 0 {
        Seq::empty()
    } else if dedup_texts(v, n - 1).contains(v[n - 1]) {
        dedup_texts(v, n - 1)
    } else {
        dedup_texts(v, n - 1).push(v[n - 1])
    }
}

/// The views of a list of strings.
pub open spec fn texts(v: Seq<String>) -> Seq<Seq<char>> {
    v.map_values(|s: String| s@)
}

/// The pieces of `s` between commas.
pub fn split_on_commas(s: &str) -> (r: Vec<String>)
    ensures
        texts(r@) == split_commas(s@),
{
    let n = s.unicode_len();
    let mut pieces: Vec<String> = Vec::new();
    let mut start: usize = 0;
    let mut i: usize = 0;
    while i < n
        invariant
            n == s@.len(),
            start <= i <= n,
            comma_free(s@.subrange(start as int, i as int)),
            start == 0 ==> last_comma(s@, i as int) is None,
            start > 0 ==> last_comma(s@, i as int) == Some(start - 1),
            start > 0 ==> texts(pieces@) == split_commas(s@.subrange(0, start - 1)),
            start == 0 ==> pieces@.len() == 0,
        decreases n - i,
    {
        if s.get_char(i) == ',' {
            let piece = s.substring_char(start, i);
            proof {
                if start > 0 {
                    assert(s@.subrange(0, i as int).subrange(0, start - 1) =~= s@.subrange(0, start - 1));
                    assert(s@.subrange(0, i as int).subrange(start as int, i as int) =~= s@.subrange(
                        start as int,
                        i as int,
                    ));
                    lemma_last_comma_prefix(s@, i as int, start - 1);
                } else {
                    lemma_no_comma_prefix(s@, i as int);
                }
            }
            pieces.push(owned(piece));
            start = i + 1;
            proof {
                assert(texts(pieces@) =~= split_commas(s@.subrange(0, start - 1)));
            }
        } else {
            proof {
                let q = s@.subrange(start as int, i + 1);
                let p = s@.subrange(start as int, i as int);
                assert forall|k: int| 0 <= k < q.len() implies q[k] != ',' by {
                    if k < p.len() {
                        assert(q[k] == p[k]);
                    } else {
                        assert(q[k] == s@[i as int]);
                    }
                }
            }
        }
        i = i + 1;
    }
    let last = s.substring_char(start, n);
    pieces.push(owned(last));
    proof {
        if start > 0 {
            assert(s@.subrange(0, n as int) =~= s@);
        } else {
            assert(s@.subrange(0, n as int) =~= s@);
        }
        assert(texts(pieces@) =~= split_commas(s@));
    }
    pieces
}

/// The last comma of a prefix ending in a comma after the previous one.
proof fn lemma_last_comma_prefix(s: Seq<char>, i: int, j: int)
    requires
        0 <= j < i < s.len(),
        s[i] == ',',
        last_comma(s, i) == Some(j),
    ensures
        split_commas(s.subrange(0, i)) == split_commas(s.subrange(0, j)).push(s.subrange(j + 1, i)),
{
    let p = s.subrange(0, i);
    lemma_last_comma_same(s, p, i);
    assert(p.subrange(0, j) =~= s.subrange(0, j));
    assert(p.subrange(j + 1, i) =~= s.subrange(j + 1, i));
}

/// A prefix has the same last comma as the text up to its end.
proof fn lemma_last_comma_same(s: Seq<char>, p: Seq<char>, n: int)
    requires
        0 <= n <= p.len() <= s.len(),
        p == s.subrange(0, p.len() as int),
    ensures
        last_comma(p, n) == last_comma(s, n),
    decreases n,
{
    if n > 0 {
        assert(p[n - 1] == s[n - 1]);
        lemma_last_comma_same(s, p, n - 1);
    }
}

/// A prefix without any comma splits into itself.
proof fn lemma_no_comma_prefix(s: Seq<char>, i: int)
    requires
        0 <= i <= s.len(),
        last_comma(s, i) is None,
    ensures
        split_commas(s.subrange(0, i)) == seq![s.subrange(0, i)],
{
    let p = s.subrange(0, i);
    lemma_last_comma_same(s, p, i);
}

/// Drop repeated texts, keeping first occurrences in order.
fn dedup(v: Vec<String>) -> (r: Vec<String>)
    ensures
        texts(r@) == dedup_texts(texts(v@), v@.len() as int),
{
    let mut out: Vec<String> = Vec::new();
    let mut i: usize = 0;
    while i < v.len()
        invariant
            i <= v@.len(),
            texts(out@) == dedup_texts(texts(v@), i as int),
        decreases v.len() - i,
    {
        let mut seen = false;
        let mut j: usize = 0;
        while j < out.len()
            invariant
                j <= out@.len(),
                i < v@.len(),
                seen == exists|k: int| 0 <= k < j && out@[k]@ == v@[i as int]@,
            decreases out.len() - j,
        {
            if str_eq(out[j].as_str(), v[i].as_str()) {
                seen = true;
            }
            j = j + 1;
        }
        proof {
            let d = dedup_texts(texts(v@), i as int);
            assert(texts(v@)[i as int] == v@[i as int]@);
            if seen {
                let k = choose|k: int| 0 <= k < out@.len() && out@[k]@ == v@[i as int]@;
                assert(d[k] == out@[k]@);
            } else {
                assert forall|k: int| 0 <= k < d.len() implies d[k] != v@[i as int]@ by {
                    assert(d[k] == out@[k]@);
                }
            }
        }
        if !seen {
            out.push(v[i].clone());
        }
        proof {
            assert(texts(out@) =~= dedup_texts(texts(v@), i + 1));
        }
        i = i + 1;
    }
    out
}

/// The set kept in a footer value: nothing for a missing or empty value,
/// otherwise the distinct comma-separated pieces, in first-seen order.
pub open spec fn footer_set(value: Option<Seq<char>>) -> Seq<Seq<char>> {
    match value {
        Some(v) => if v.len() > 0 {
            dedup_texts(split_commas(v), split_commas(v).len() as int)
        } else {
            Seq::empty()
        },
        None => Seq::empty(),
    }
}

/// Read a comma-separated set from a footer value.
pub fn read_metadata_set(value: Option<&str>) -> (r: Vec<String>)
    ensures
        texts(r@) == footer_set(
            match value {
                Some(v) => Some(v@),
                None => None,
            },
        ),
{
    match value {
        Some(v) => {
            if v.unicode_len() == 0 {
                return Vec::new();
            }
            let pieces = split_on_commas(v);
            proof {
                assert(texts(pieces@).len() == pieces@.len());
            }
            dedup(pieces)
        },
        None => Vec::new(),
    }
}

/// Texts in lexicographic order.
pub open spec fn sorted_lex(t: Seq<Seq<char>>) -> bool {
    forall|i: int, j: int| 0 <= i < j < t.len() ==> lex_le(#[trigger] t[i], #[trigger] t[j])
}

/// The texts sorted lexicographically (the order of `str`'s `Ord`).
fn sort_texts(v: &Vec<String>) -> (r: Vec<String>)
    ensures
        texts(r@).to_multiset() == texts(v@).to_multiset(),
        sorted_lex(texts(r@)),
{
    broadcast use vstd::seq_lib::group_to_multiset_ensures;

    let mut out: Vec<String> = Vec::new();
    let mut i: usize = 0;
    while i < v.len()
        invariant
            i <= v@.len(),
            texts(out@).to_multiset() == texts(v@.subrange(0, i as int)).to_multiset(),
            sorted_lex(texts(out@)),
        decreases v.len() - i,
    {
        let x = v[i].clone();
        let mut j: usize = 0;
        while j < out.len() && str_le(out[j].as_str(), x.as_str())
            invariant
                j <= out@.len(),
                forall|k: int| 0 <= k < j ==> lex_le(#[trigger] out@[k]@, x@),
            decreases out@.len() - j,
        {
            j = j + 1;
        }
        let ghost pre = out@;
        out.insert(j, x);
        proof {
            let tp = texts(pre);
            let to = texts(out@);
            assert(to =~= tp.insert(j as int, x@));
            vstd::seq_lib::to_multiset_insert(tp, j as int, x@);
            assert(texts(v@.subrange(0, i + 1)) =~= texts(v@.subrange(0, i as int)).push(x@));
            vstd::seq_lib::to_multiset_build(texts(v@.subrange(0, i as int)), x@);
            assert forall|a: int, b: int| 0 <= a < b < to.len() implies lex_le(#[trigger] to[a], #[trigger] to[b]) by {
                if b < j {
                    assert(to[a] == tp[a] && to[b] == tp[b]);
                } else if b == j {
                    assert(to[a] == tp[a]);
                } else if a < j {
                    assert(to[a] == tp[a] && to[b] == tp[b - 1]);
                    assert(!lex_le(tp[j as int], x@));
                    lemma_lex_total(tp[j as int], x@, 0);
                    if b - 1 > j {
                        lemma_lex_trans(x@, tp[j as int], tp[b - 1], 0);
                    }
                    lemma_lex_trans(to[a], x@, to[b], 0);
                } else if a == j {
                    assert(to[b] == tp[b - 1]);
                    assert(!lex_le(tp[j as int], x@));
                    lemma_lex_total(tp[j as int], x@, 0);
                    if b - 1 > j {
                        lemma_lex_trans(x@, tp[j as int], tp[b - 1], 0);
                    }
                } else {
                    assert(to[a] == tp[a - 1] && to[b] == tp[b - 1]);
                }
            }
        }
        i = i + 1;
    }
    proof {
        assert(v@.subrange(0, v@.len() as int) =~= v@);
    }
    out
}

/// Join texts with commas.
fn join_with_commas(v: &Vec<String>) -> (r: String)
    ensures
        r@ == join_commas(texts(v@)),
{
    if v.len() == 0 {
        return String::new();
    }
    let mut out = owned(v[0].as_str());
    let mut i: usize = 1;
    proof {
        assert(texts(v@.subrange(0, 1)) =~= seq![v@[0]@]);
    }
    while i < v.len()
        invariant
            1 <= i <= v@.len(),
            out@ == join_commas(texts(v@.subrange(0, i as int))),
        decreases v.len() - i,
    {
        out.append(",");
        out.append(v[i].as_str());
        proof {
            let t = texts(v@.subrange(0, i + 1));
            assert(t.drop_last() =~= texts(v@.subrange(0, i as int)));
            assert(t.last() == v@[i as int]@);
        }
        i = i + 1;
    }
    proof {
        assert(v@.subrange(0, v@.len() as int) =~= v@);
    }
    out
}

/// Footer text of a set: its texts sorted and joined with commas.
pub fn set_to_csv(set: &Vec<String>) -> (r: String)
    ensures
        exists|t: Seq<Seq<char>>|
            #![trigger join_commas(t)]
            t.to_multiset() == texts(set@).to_multiset() && sorted_lex(t) && r@ == join_commas(t),
{
    let sorted = sort_texts(set);
    let r = join_with_commas(&sorted);
    proof {
        assert(r@ == join_commas(texts(sorted@)));
    }
    r
}

/// Distinct texts are kept as they are.
proof fn lemma_dedup_distinct(v: Seq<Seq<char>>, n: int)
    requires
        v.no_duplicates(),
        0 <= n <= v.len(),
    ensures
        dedup_texts(v, n) == v.take(n),
    decreases n,
{
    if n > 0 {
        lemma_dedup_distinct(v, n - 1);
        assert(v.take(n - 1).push(v[n - 1]) =~= v.take(n));
        if v.take(n - 1).contains(v[n - 1]) {
            let k = choose|k: int| 0 <= k < n - 1 && #[trigger] v.take(n - 1)[k] == v[n - 1];
            assert(v[k] == v[n - 1]);
        }
    }
}

/// A footer written from distinct comma-free texts (any order, not the one
/// empty text alone) reads back as exactly those texts.
pub proof fn law_footer_roundtrip(t: Seq<Seq<char>>)
    requires
        t.len() >= 1,
        t.no_duplicates(),
        forall|k: int| 0 <= k < t.len() ==> comma_free(#[trigger] t[k]),
        join_commas(t).len() > 0,
    ensures
        footer_set(Some(join_commas(t))) == t,
{
    law_split_join_roundtrip(t);
    lemma_dedup_distinct(t, t.len() as int);
    assert(t.take(t.len() as int) =~= t);
}

} // verus!
