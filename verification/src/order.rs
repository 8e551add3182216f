//! Lexicographic order on character sequences (the order of `String`'s `Ord`).

use vstd::prelude::*;

verus! {

/// `a < b` in lexicographic order of code points.
pub open spec fn str_lt(a: Seq<char>, b: Seq<char>) -> bool
    decreases a.len(),
{
    if a.len() == 0 {
        b.len() > 0
    } else if b.len() == 0 {
        false
    } else if a[0] < b[0] {
        true
    } else if a[0] == b[0] {
        str_lt(a.drop_first(), b.drop_first())
    } else {
        false
    }
}

/// A sequence of keys in strictly increasing order.
pub open spec fn strictly_sorted(s: Seq<Seq<char>>) -> bool {
    forall|i: int, j: int| 0 <= i < j < s.len() ==> str_lt(#[trigger] s[i], #[trigger] s[j])
}

pub proof fn lemma_lt_irreflexive(a: Seq<char>)
    ensures
        !str_lt(a, a),
    decreases a.len(),
{
    if a.len() > 0 {
        lemma_lt_irreflexive(a.drop_first());
    }
}

pub proof fn lemma_lt_asymmetric(a: Seq<char>, b: Seq<char>)
    ensures
        str_lt(a, b) ==> !str_lt(b, a),
    decreases a.len(),
{
    if a.len() > 0 && b.len() > 0 && a[0] == b[0] {
        lemma_lt_asymmetric(a.drop_first(), b.drop_first());
    }
}

pub proof fn lemma_lt_transitive(a: Seq<char>, b: Seq<char>, c: Seq<char>)
    requires
        str_lt(a, b),
        str_lt(b, c),
    ensures
        str_lt(a, c),
    decreases a.len(),
{
    if a.len() > 0 && b.len() > 0 && c.len() > 0 && a[0] == b[0] && b[0] == c[0] {
        lemma_lt_transitive(a.drop_first(), b.drop_first(), c.drop_first());
    }
}

pub proof fn lemma_lt_total(a: Seq<char>, b: Seq<char>)
    ensures
        a == b || str_lt(a, b) || str_lt(b, a),
    decreases a.len(),
{
    if a.len() > 0 && b.len() > 0 {
        if a[0] == b[0] {
            lemma_lt_total(a.drop_first(), b.drop_first());
            if a.drop_first() == b.drop_first() {
                assert(a =~= seq![a[0]] + a.drop_first());
                assert(b =~= seq![b[0]] + b.drop_first());
            }
        } else {
            assert(a[0] != b[0]);
        }
    } else if a.len() == 0 && b.len() == 0 {
        assert(a =~= b);
    }
}

/// In a strictly sorted sequence the keys are distinct.
pub proof fn lemma_sorted_distinct(s: Seq<Seq<char>>, i: int, j: int)
    requires
        strictly_sorted(s),
        0 <= i < s.len(),
        0 <= j < s.len(),
        i != j,
    ensures
        s[i] != s[j],
{
    if i < j {
        assert(str_lt(s[i], s[j]));
        lemma_lt_irreflexive(s[i]);
    } else {
        assert(str_lt(s[j], s[i]));
        lemma_lt_irreflexive(s[j]);
    }
}

/// A strictly sorted sequence has no duplicates.
pub proof fn lemma_sorted_no_dup(s: Seq<Seq<char>>)
    requires
        strictly_sorted(s),
    ensures
        s.no_duplicates(),
{
    assert forall|i: int, j: int| 0 <= i < s.len() && 0 <= j < s.len() && i != j implies s[i] != s[j] by {
        lemma_sorted_distinct(s, i, j);
    }
}

/// Two strictly sorted sequences with the same elements are equal.
pub proof fn lemma_sorted_unique(a: Seq<Seq<char>>, b: Seq<Seq<char>>)
    requires
        strictly_sorted(a),
        strictly_sorted(b),
        a.to_set() == b.to_set(),
    ensures
        a == b,
    decreases a.len(),
{
    if a.len() == 0 {
        if b.len() > 0 {
            assert(b.to_set().contains(b[0]));
        }
        assert(a =~= b);
    } else if b.len() == 0 {
        assert(a.to_set().contains(a[0]));
    } else {
        // the first elements are the minima of the same set
        assert(b.to_set().contains(a[0]));
        assert(a.to_set().contains(b[0]));
        let ia = choose|i: int| 0 <= i < a.len() && a[i] == b[0];
        let ib = choose|i: int| 0 <= i < b.len() && b[i] == a[0];
        if a[0] != b[0] {
            assert(ib != 0);
            assert(str_lt(b[0], b[ib]));
            assert(ia != 0);
            assert(str_lt(a[0], a[ia]));
            lemma_lt_asymmetric(a[0], b[0]);
            assert(false);
        }
        let a1 = a.drop_first();
        let b1 = b.drop_first();
        assert forall|x: Seq<char>| a1.to_set().contains(x) implies b1.to_set().contains(x) by {
            let k = choose|k: int| 0 <= k < a1.len() && a1[k] == x;
            assert(a[k + 1] == x);
            assert(b.to_set().contains(x));
            let m = choose|m: int| 0 <= m < b.len() && b[m] == x;
            if m == 0 {
                lemma_sorted_distinct(a, 0, k + 1);
            }
            assert(b1[m - 1] == x);
        }
        assert forall|x: Seq<char>| b1.to_set().contains(x) implies a1.to_set().contains(x) by {
            let k = choose|k: int| 0 <= k < b1.len() && b1[k] == x;
            assert(b[k + 1] == x);
            assert(a.to_set().contains(x));
            let m = choose|m: int| 0 <= m < a.len() && a[m] == x;
            if m == 0 {
                lemma_sorted_distinct(b, 0, k + 1);
            }
            assert(a1[m - 1] == x);
        }
        assert(a1.to_set() =~= b1.to_set());
        lemma_sorted_unique(a1, b1);
        assert(a =~= seq![a[0]] + a1);
        assert(b =~= seq![b[0]] + b1);
    }
}

proof fn lemma_lt_drop_first(a: Seq<char>, b: Seq<char>, i: int)
    requires
        0 <= i < a.len(),
        i < b.len(),
        a[i] == b[i],
    ensures
        str_lt(a.subrange(i, a.len() as int), b.subrange(i, b.len() as int)) == str_lt(
            a.subrange(i + 1, a.len() as int),
            b.subrange(i + 1, b.len() as int),
        ),
{
    let sa = a.subrange(i, a.len() as int);
    let sb = b.subrange(i, b.len() as int);
    assert(sa.drop_first() =~= a.subrange(i + 1, a.len() as int));
    assert(sb.drop_first() =~= b.subrange(i + 1, b.len() as int));
}

/// Executable `str_lt`.
pub fn lt_chars(a: &[char], b: &[char]) -> (r: bool)
    ensures
        r == str_lt(a@, b@),
{
    let mut i: usize = 0;
    assert(a@.subrange(0, a@.len() as int) =~= a@);
    assert(b@.subrange(0, b@.len() as int) =~= b@);
    loop
        invariant
            i <= a.len(),
            i <= b.len(),
            str_lt(a@, b@) == str_lt(
                a@.subrange(i as int, a@.len() as int),
                b@.subrange(i as int, b@.len() as int),
            ),
        decreases a.len() - i,
    {
        if i == a.len() {
            return i < b.len();
        }
        if i == b.len() {
            return false;
        }
        let ca = a[i];
        let cb = b[i];
        if ca < cb {
            return true;
        }
        if ca != cb {
            return false;
        }
        proof {
            lemma_lt_drop_first(a@, b@, i as int);
        }
        i = i + 1;
    }
}

/// The position of a least element of a non-empty sequence.
pub proof fn least_index(t: Seq<Seq<char>>) -> (i: int)
    requires
        t.len() > 0,
    ensures
        0 <= i < t.len(),
        forall|j: int| 0 <= j < t.len() ==> t[j] == t[i] || str_lt(t[i], #[trigger] t[j]),
    decreases t.len(),
{
    if t.len() == 1 {
        0
    } else {
        let d = t.drop_last();
        let k = least_index(d);
        let last = t.len() - 1;
        lemma_lt_total(t[k], t[last]);
        if t[k] == t[last] || str_lt(t[k], t[last]) {
            assert forall|j: int| 0 <= j < t.len() implies t[j] == t[k] || str_lt(t[k], #[trigger] t[j]) by {
                if j < last {
                    assert(d[j] == t[j]);
                }
            }
            k
        } else {
            assert forall|j: int| 0 <= j < t.len() implies t[j] == t[last] || str_lt(t[last], #[trigger] t[j]) by {
                if j < last {
                    assert(d[j] == t[j]);
                    if t[j] != t[k] {
                        lemma_lt_transitive(t[last], t[k], t[j]);
                    }
                }
            }
            last
        }
    }
}

/// The position of a greatest element of a non-empty sequence.
pub proof fn greatest_index(t: Seq<Seq<char>>) -> (i: int)
    requires
        t.len() > 0,
    ensures
        0 <= i < t.len(),
        forall|j: int| 0 <= j < t.len() ==> t[j] == t[i] || str_lt(#[trigger] t[j], t[i]),
    decreases t.len(),
{
    if t.len() == 1 {
        0
    } else {
        let d = t.drop_last();
        let k = greatest_index(d);
        let last = t.len() - 1;
        lemma_lt_total(t[k], t[last]);
        if t[k] == t[last] || str_lt(t[last], t[k]) {
            assert forall|j: int| 0 <= j < t.len() implies t[j] == t[k] || str_lt(#[trigger] t[j], t[k]) by {
                if j < last {
                    assert(d[j] == t[j]);
                }
            }
            k
        } else {
            assert forall|j: int| 0 <= j < t.len() implies t[j] == t[last] || str_lt(#[trigger] t[j], t[last]) by {
                if j < last {
                    assert(d[j] == t[j]);
                    if t[j] != t[k] {
                        lemma_lt_transitive(t[j], t[k], t[last]);
                    }
                }
            }
            last
        }
    }
}

} // verus!
