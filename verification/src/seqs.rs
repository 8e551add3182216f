//! Generic sequence specifications.

use vstd::prelude::*;

verus! {

/// The elements of `s` that satisfy `p`, in order.
pub open spec fn keep<T>(s: Seq<T>, p: spec_fn(T) -> bool) -> Seq<T>
    decreases s.len(),
{
    if s.len() == 0 {
        Seq::empty()
    } else {
        let rest = keep(s.drop_last(), p);
        if p(s.last()) {
            rest.push(s.last())
        } else {
            rest
        }
    }
}

/// The set of a prefix grows by the next element.
pub proof fn lemma_take_to_set<T>(s: Seq<T>, k: int)
    requires
        0 <= k < s.len(),
    ensures
        s.take(k + 1).to_set() == s.take(k).to_set().insert(s[k]),
{
    let t1 = s.take(k + 1);
    let t0 = s.take(k);
    assert forall|x: T| t1.to_set().contains(x) == t0.to_set().insert(s[k]).contains(x) by {
        if t1.contains(x) {
            let q = choose|q: int| 0 <= q < t1.len() && #[trigger] t1[q] == x;
            if q < k {
                assert(t0[q] == x);
            }
        }
        if t0.contains(x) {
            let q = choose|q: int| 0 <= q < t0.len() && #[trigger] t0[q] == x;
            assert(t1[q] == x);
        }
        if x == s[k] {
            assert(t1[k] == x);
        }
    }
    assert(t1.to_set() =~= t0.to_set().insert(s[k]));
}

/// One more element considered by `keep`.
pub proof fn lemma_keep_take<T>(s: Seq<T>, p: spec_fn(T) -> bool, i: int)
    requires
        0 <= i < s.len(),
    ensures
        keep(s.take(i + 1), p) == if p(s[i]) {
            keep(s.take(i), p).push(s[i])
        } else {
            keep(s.take(i), p)
        },
{
    assert(s.take(i + 1).drop_last() =~= s.take(i));
}

/// `keep` commutes with mapping when the predicate is read through the map.
pub proof fn lemma_keep_map<T, U>(s: Seq<T>, f: spec_fn(T) -> U, p: spec_fn(U) -> bool, q: spec_fn(T) -> bool)
    requires
        forall|x: T| #[trigger] q(x) == p(f(x)),
    ensures
        keep(s, q).map_values(f) == keep(s.map_values(f), p),
    decreases s.len(),
{
    if s.len() > 0 {
        lemma_keep_map(s.drop_last(), f, p, q);
        assert(s.map_values(f).drop_last() =~= s.drop_last().map_values(f));
        assert(keep(s, q).map_values(f) =~= keep(s.map_values(f), p));
    } else {
        assert(keep(s, q).map_values(f) =~= keep(s.map_values(f), p));
    }
}

/// Membership in `keep`.
pub proof fn lemma_keep_contains<T>(s: Seq<T>, p: spec_fn(T) -> bool, x: T)
    ensures
        keep(s, p).contains(x) <==> (s.contains(x) && p(x)),
    decreases s.len(),
{
    broadcast use vstd::seq_lib::group_seq_properties;

    if s.len() > 0 {
        let d = s.drop_last();
        lemma_keep_contains(d, p, x);
        assert(s =~= d.push(s.last()));
        assert(s.contains(x) <==> (d.contains(x) || x == s.last()));
    }
}

/// Every element of `keep(s, p)` occurs in `s` at or after position `keep`'s
/// own index, and `keep` preserves relative order: a kept element comes from
/// an index of `s`, increasing along the result.
pub proof fn lemma_keep_sorted(s: Seq<Seq<char>>, p: spec_fn(Seq<char>) -> bool)
    requires
        crate::order::strictly_sorted(s),
    ensures
        crate::order::strictly_sorted(keep(s, p)),
    decreases s.len(),
{
    if s.len() > 0 {
        let d = s.drop_last();
        assert(crate::order::strictly_sorted(d));
        lemma_keep_sorted(d, p);
        let rest = keep(d, p);
        if p(s.last()) {
            let r = rest.push(s.last());
            assert forall|i: int, j: int| 0 <= i < j < r.len() implies crate::order::str_lt(#[trigger] r[i], #[trigger] r[j]) by {
                if j == rest.len() {
                    assert(rest.contains(r[i]));
                    lemma_keep_contains(d, p, r[i]);
                    let k = choose|k: int| 0 <= k < d.len() && d[k] == r[i];
                    assert(s[k] == r[i]);
                    assert(crate::order::str_lt(s[k], s[s.len() - 1]));
                }
            }
        }
    }
}

/// `keep` with a weaker predicate keeps at least as many elements.
pub proof fn lemma_keep_len_mono<T>(s: Seq<T>, p: spec_fn(T) -> bool, q: spec_fn(T) -> bool)
    requires
        forall|i: int| 0 <= i < s.len() && #[trigger] p(s[i]) ==> q(s[i]),
    ensures
        keep(s, p).len() <= keep(s, q).len(),
    decreases s.len(),
{
    if s.len() > 0 {
        let d = s.drop_last();
        assert forall|i: int| 0 <= i < d.len() && #[trigger] p(d[i]) implies q(d[i]) by {
            assert(d[i] == s[i]);
        }
        lemma_keep_len_mono(d, p, q);
        assert(p(s[s.len() - 1]) ==> q(s[s.len() - 1]));
    }
}

/// Splitting `keep(s, q)` into the elements that also satisfy `p` and
/// those that do not (`r`).
pub proof fn lemma_keep_len_split<T>(s: Seq<T>, p: spec_fn(T) -> bool, q: spec_fn(T) -> bool, r: spec_fn(T) -> bool)
    requires
        forall|i: int| 0 <= i < s.len() && #[trigger] p(s[i]) ==> q(s[i]),
        forall|x: T| #[trigger] r(x) == (q(x) && !p(x)),
    ensures
        keep(s, q).len() == keep(s, p).len() + keep(s, r).len(),
    decreases s.len(),
{
    if s.len() > 0 {
        let d = s.drop_last();
        assert forall|i: int| 0 <= i < d.len() && #[trigger] p(d[i]) implies q(d[i]) by {
            assert(d[i] == s[i]);
        }
        lemma_keep_len_split(d, p, q, r);
        assert(p(s[s.len() - 1]) ==> q(s[s.len() - 1]));
        assert(r(s.last()) == (q(s.last()) && !p(s.last())));
    }
}

/// An element that occurs once is kept once by a predicate that holds of
/// it alone.
pub proof fn lemma_keep_unique<T>(s: Seq<T>, r: spec_fn(T) -> bool, x: T)
    requires
        s.no_duplicates(),
        s.contains(x),
        forall|y: T| #[trigger] r(y) == (y == x),
    ensures
        keep(s, r).len() == 1,
    decreases s.len(),
{
    let d = s.drop_last();
    assert(d.no_duplicates());
    if s.last() == x {
        lemma_keep_contains(d, r, x);
        if keep(d, r).len() > 0 {
            let y = keep(d, r)[0];
            assert(keep(d, r).contains(y));
            lemma_keep_contains(d, r, y);
            let k = choose|k: int| 0 <= k < d.len() && d[k] == y;
            assert(s[k] == s[s.len() - 1]);
        }
    } else {
        let k = choose|k: int| 0 <= k < s.len() && s[k] == x;
        assert(k != s.len() - 1);
        assert(d[k] == x);
        lemma_keep_unique(d, r, x);
    }
}

} // verus!
