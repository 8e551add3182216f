//! Ordered maps and sets keyed by strings, iterated in key order (the order
//! of `String`'s `Ord`), as the client's persisted bindings are.

use vstd::prelude::*;

use crate::order::{
    lemma_lt_irreflexive, lemma_lt_total, lemma_lt_transitive, lemma_sorted_distinct, lemma_sorted_no_dup, lt_chars,
    str_lt, strictly_sorted,
};
use crate::text::{chars_of, str_eq, string_from, strs_view};

verus! {

/// A map from strings to values, kept sorted by key.
#[derive(Debug, PartialEq, Eq)]
pub struct StrMap<V> {
    entries: Vec<(String, V)>,
}

/// A set of strings, kept sorted.
pub type StrSet = StrMap<()>;

impl<V> StrMap<V> {
    /// Keys in iteration (ascending) order.
    pub closed spec fn keys(&self) -> Seq<Seq<char>> {
        self.entries@.map_values(|e: (String, V)| e.0@)
    }

    /// Values in iteration order.
    pub closed spec fn vals(&self) -> Seq<V> {
        self.entries@.map_values(|e: (String, V)| e.1)
    }

    #[verifier::type_invariant]
    closed spec fn inv(&self) -> bool {
        strictly_sorted(self.keys())
    }

    /// The keys are strictly ascending, and the view maps each key to the
    /// value at the same position.
    pub open spec fn wf(&self) -> bool {
        &&& strictly_sorted(self.keys())
        &&& self.keys().len() == self.vals().len()
        &&& self@.dom() == self.keys().to_set()
        &&& forall|i: int| 0 <= i < self.keys().len() ==> #[trigger] self@[self.keys()[i]] == self.vals()[i]
    }

    closed spec fn index_of(&self, k: Seq<char>) -> int {
        choose|i: int| 0 <= i < self.keys().len() && self.keys()[i] == k
    }

    proof fn lemma_wf(&self)
        requires
            self.inv(),
        ensures
            self.wf(),
    {
        assert(self@.dom() =~= self.keys().to_set());
        assert forall|i: int| 0 <= i < self.keys().len() implies #[trigger] self@[self.keys()[i]] == self.vals()[i] by {
            let k = self.keys()[i];
            assert(self.keys().contains(k));
            let j = self.index_of(k);
            if j != i {
                lemma_sorted_distinct(self.keys(), i, j);
            }
        }
    }

    /// Empty map.
    pub fn new() -> (m: Self)
        ensures
            m@ == Map::<Seq<char>, V>::empty(),
            m.keys() == Seq::<Seq<char>>::empty(),
            m.wf(),
    {
        let m = StrMap { entries: Vec::new() };
        assert(m.keys() =~= Seq::<Seq<char>>::empty());
        assert(m@ =~= Map::<Seq<char>, V>::empty());
        proof {
            m.lemma_wf();
        }
        m
    }

    /// Number of entries.
    pub fn len(&self) -> (n: usize)
        ensures
            n == self.keys().len(),
            n == self@.dom().len(),
            self.wf(),
    {
        proof {
            use_type_invariant(self);
            self.lemma_wf();
            lemma_sorted_no_dup(self.keys());
            self.keys().unique_seq_to_set();
        }
        self.entries.len()
    }

    /// Whether the map has no entries.
    pub fn is_empty(&self) -> (b: bool)
        ensures
            b == (self@.dom().len() == 0),
            b == (self.keys().len() == 0),
            self.wf(),
    {
        proof {
            use_type_invariant(self);
            self.lemma_wf();
            lemma_sorted_no_dup(self.keys());
            self.keys().unique_seq_to_set();
        }
        self.entries.len() == 0
    }

    /// The key at position `i` of the iteration order.
    pub fn key_at(&self, i: usize) -> (k: &String)
        requires
            i < self.keys().len(),
        ensures
            k@ == self.keys()[i as int],
    {
        &self.entries[i].0
    }

    /// The value at position `i` of the iteration order.
    pub fn value_at(&self, i: usize) -> (v: &V)
        requires
            i < self.keys().len(),
        ensures
            *v == self.vals()[i as int],
            *v == self@[self.keys()[i as int]],
    {
        proof {
            use_type_invariant(self);
            self.lemma_wf();
        }
        &self.entries[i].1
    }

    /// First position whose key is not below `k`, and whether it equals `k`.
    fn locate(&self, k: &[char]) -> (r: (usize, bool))
        ensures
            r.0 <= self.keys().len(),
            forall|j: int| 0 <= j < r.0 ==> str_lt(#[trigger] self.keys()[j], k@),
            r.0 < self.keys().len() ==> !str_lt(self.keys()[r.0 as int], k@),
            r.1 == (r.0 < self.keys().len() && self.keys()[r.0 as int] == k@),
            r.1 == self.keys().contains(k@),
    {
        proof {
            use_type_invariant(self);
        }
        let n = self.entries.len();
        let mut i: usize = 0;
        while i < n
            invariant
                n == self.keys().len(),
                n == self.entries@.len(),
                i <= n,
                strictly_sorted(self.keys()),
                forall|j: int| 0 <= j < i ==> str_lt(#[trigger] self.keys()[j], k@),
            decreases n - i,
        {
            let kc = chars_of(self.entries[i].0.as_str());
            assert(kc@ == self.keys()[i as int]);
            if !lt_chars(kc.as_slice(), k) {
                let eq = str_eq(self.entries[i].0.as_str(), string_from(k).as_str());
                proof {
                    if !eq {
                        assert forall|j: int| 0 <= j < n implies #[trigger] self.keys()[j] != k@ by {
                            if j < i {
                                lemma_lt_irreflexive(k@);
                            } else if j > i {
                                lemma_lt_total(self.keys()[i as int], k@);
                                lemma_lt_transitive(k@, self.keys()[i as int], self.keys()[j]);
                                lemma_lt_irreflexive(k@);
                            }
                        }
                    } else {
                        assert(self.keys().contains(k@));
                    }
                }
                return (i, eq);
            }
            i = i + 1;
        }
        proof {
            assert forall|j: int| 0 <= j < n implies #[trigger] self.keys()[j] != k@ by {
                lemma_lt_irreflexive(k@);
            }
        }
        (n, false)
    }

    /// Whether `k` is a key.
    pub fn contains_key(&self, k: &str) -> (b: bool)
        ensures
            b == self@.dom().contains(k@),
            b == self.keys().contains(k@),
    {
        proof {
            use_type_invariant(self);
            self.lemma_wf();
        }
        let kc = chars_of(k);
        self.locate(kc.as_slice()).1
    }

    /// The value stored under `k`.
    pub fn get(&self, k: &str) -> (r: Option<&V>)
        ensures
            r is Some == self@.dom().contains(k@),
            r matches Some(v) ==> *v == self@[k@],
    {
        proof {
            use_type_invariant(self);
            self.lemma_wf();
        }
        let kc = chars_of(k);
        let (i, found) = self.locate(kc.as_slice());
        if found {
            Some(&self.entries[i].1)
        } else {
            None
        }
    }

    /// Insert or overwrite the entry for `k`; returns whether `k` was new.
    pub fn insert(&mut self, k: String, v: V) -> (added: bool)
        ensures
            final(self)@ == old(self)@.insert(k@, v),
            added == !old(self)@.dom().contains(k@),
            final(self).wf(),
    {
        proof {
            use_type_invariant(&*self);
            self.lemma_wf();
        }
        let kc = chars_of(k.as_str());
        let (i, found) = self.locate(kc.as_slice());
        let ghost old_keys = self.keys();
        let ghost old_vals = self.vals();
        let ghost old_map = self@;
        let ghost kv = k@;
        let mut e: Vec<(String, V)> = Vec::new();
        std::mem::swap(&mut e, &mut self.entries);
        assert(e@.map_values(|e: (String, V)| e.0@) == old_keys);
        if found {
            e.set(i, (k, v));
            let ghost nk = e@.map_values(|e: (String, V)| e.0@);
            assert(nk =~= old_keys);
            self.entries = e;
        } else {
            e.insert(i, (k, v));
            let ghost nk = e@.map_values(|e: (String, V)| e.0@);
            assert(nk =~= old_keys.insert(i as int, kv));
            proof {
                assert forall|a: int, b: int| 0 <= a < b < nk.len() implies str_lt(#[trigger] nk[a], #[trigger] nk[b]) by {
                    if a < i && b < i {
                    } else if a < i && b == i {
                    } else if a < i && b > i {
                        assert(nk[b] == old_keys[b - 1]);
                    } else if a == i {
                        assert(nk[b] == old_keys[b - 1]);
                        if (i as int) < old_keys.len() {
                            lemma_lt_total(old_keys[i as int], kv);
                            if b - 1 > i {
                                lemma_lt_transitive(kv, old_keys[i as int], old_keys[b - 1]);
                            }
                        }
                    } else {
                        assert(nk[a] == old_keys[a - 1]);
                        assert(nk[b] == old_keys[b - 1]);
                    }
                }
            }
            self.entries = e;
        }
        proof {
            self.lemma_wf();
            let m = self@;
            assert forall|q: Seq<char>| #[trigger] m.dom().contains(q) == old_map.insert(kv, v).dom().contains(q) by {
                if q != kv && old_keys.contains(q) {
                    let j = choose|j: int| 0 <= j < old_keys.len() && old_keys[j] == q;
                    if found {
                        assert(self.keys()[j] == q);
                    } else if j < i {
                        assert(self.keys()[j] == q);
                    } else {
                        assert(self.keys()[j + 1] == q);
                    }
                }
                if q != kv && self.keys().contains(q) {
                    let j = choose|j: int| 0 <= j < self.keys().len() && self.keys()[j] == q;
                    if found {
                        assert(old_keys[j] == q);
                    } else if j < i {
                        assert(old_keys[j] == q);
                    } else if j > i {
                        assert(old_keys[j - 1] == q);
                    }
                }
                if q == kv {
                    assert(self.keys()[i as int] == kv);
                }
            }
            assert forall|q: Seq<char>| #[trigger] m.dom().contains(q) implies m[q] == old_map.insert(kv, v)[q] by {
                let j = choose|j: int| 0 <= j < self.keys().len() && self.keys()[j] == q;
                assert(m[self.keys()[j]] == self.vals()[j]);
                if q == kv {
                    if j != i {
                        lemma_sorted_distinct(self.keys(), i as int, j);
                    }
                } else {
                    if found {
                        assert(old_keys[j] == q);
                        assert(old_map[old_keys[j]] == old_vals[j]);
                    } else if j < i {
                        assert(old_keys[j] == q);
                        assert(old_map[old_keys[j]] == old_vals[j]);
                    } else {
                        assert(j != i);
                        assert(old_keys[j - 1] == q);
                        assert(old_map[old_keys[j - 1]] == old_vals[j - 1]);
                    }
                }
            }
            assert(m =~= old_map.insert(kv, v));
        }
        !found
    }

    /// Remove the entry for `k`, returning its value.
    pub fn remove(&mut self, k: &str) -> (r: Option<V>)
        ensures
            final(self)@ == old(self)@.remove(k@),
            r is Some == old(self)@.dom().contains(k@),
            r matches Some(v) ==> v == old(self)@[k@],
            final(self).wf(),
    {
        proof {
            use_type_invariant(&*self);
            self.lemma_wf();
        }
        let kc = chars_of(k);
        let (i, found) = self.locate(kc.as_slice());
        if !found {
            assert(self@ =~= self@.remove(k@));
            return None;
        }
        let ghost old_keys = self.keys();
        let ghost old_vals = self.vals();
        let ghost old_map = self@;
        let mut e: Vec<(String, V)> = Vec::new();
        std::mem::swap(&mut e, &mut self.entries);
        let (_, v) = e.remove(i);
        let ghost nk = e@.map_values(|e: (String, V)| e.0@);
        assert(nk =~= old_keys.remove(i as int));
        assert forall|a: int, b: int| 0 <= a < b < nk.len() implies str_lt(#[trigger] nk[a], #[trigger] nk[b]) by {
            if a < i && b >= i {
                assert(nk[b] == old_keys[b + 1]);
            } else if a >= i {
                assert(nk[a] == old_keys[a + 1]);
                assert(nk[b] == old_keys[b + 1]);
            }
        }
        self.entries = e;
        proof {
            self.lemma_wf();
            let m = self@;
            let kv = k@;
            assert(old_map[old_keys[i as int]] == old_vals[i as int]);
            assert forall|q: Seq<char>| #[trigger] m.dom().contains(q) == old_map.remove(kv).dom().contains(q) by {
                if q != kv && old_keys.contains(q) {
                    let j = choose|j: int| 0 <= j < old_keys.len() && old_keys[j] == q;
                    if j < i {
                        assert(self.keys()[j] == q);
                    } else {
                        assert(j != i);
                        assert(self.keys()[j - 1] == q);
                    }
                }
                if self.keys().contains(q) {
                    let j = choose|j: int| 0 <= j < self.keys().len() && self.keys()[j] == q;
                    if j < i {
                        assert(old_keys[j] == q);
                        lemma_sorted_distinct(old_keys, i as int, j);
                    } else {
                        assert(old_keys[j + 1] == q);
                        lemma_sorted_distinct(old_keys, i as int, j + 1);
                    }
                }
            }
            assert forall|q: Seq<char>| #[trigger] m.dom().contains(q) implies m[q] == old_map.remove(kv)[q] by {
                let j = choose|j: int| 0 <= j < self.keys().len() && self.keys()[j] == q;
                assert(m[self.keys()[j]] == self.vals()[j]);
                if j < i {
                    assert(old_keys[j] == q);
                    assert(old_map[old_keys[j]] == old_vals[j]);
                } else {
                    assert(old_keys[j + 1] == q);
                    assert(old_map[old_keys[j + 1]] == old_vals[j + 1]);
                }
            }
            assert(m =~= old_map.remove(kv));
        }
        Some(v)
    }


    /// Keep only the entries whose key is listed in `keep`.
    pub fn retain_keys(&mut self, keep: &[String])
        ensures
            final(self)@ == old(self)@.restrict(strs_view(keep@).to_set()),
            final(self).wf(),
    {
        proof {
            use_type_invariant(&*self);
            self.lemma_wf();
        }
        let ghost old_keys = self.keys();
        let ghost old_vals = self.vals();
        let ghost old_map = self@;
        let ghost ks = strs_view(keep@).to_set();
        let mut e: Vec<(String, V)> = Vec::new();
        std::mem::swap(&mut e, &mut self.entries);
        let ghost orig = e@;
        assert(orig.map_values(|e: (String, V)| e.0@) == old_keys);
        assert(orig.map_values(|e: (String, V)| e.1) == old_vals);
        let n = e.len();
        let mut kept: StrMap<V> = StrMap::new();
        let mut i: usize = 0;
        while i < n
            invariant
                n == orig.len(),
                n == old_keys.len(),
                n == old_vals.len(),
                i <= n,
                e@ == orig.skip(i as int),
                forall|j: int| 0 <= j < n ==> #[trigger] orig[j].0@ == old_keys[j],
                forall|j: int| 0 <= j < n ==> #[trigger] orig[j].1 == old_vals[j],
                forall|j: int| 0 <= j < n ==> #[trigger] old_map[old_keys[j]] == old_vals[j],
                old_map.dom() == old_keys.to_set(),
                strictly_sorted(old_keys),
                ks == strs_view(keep@).to_set(),
                kept@ == old_map.restrict(ks.intersect(old_keys.take(i as int).to_set())),
            decreases n - i,
        {
            let (k, v) = e.remove(0);
            assert((k, v) == orig[i as int]);
            let ghost kv = k@;
            let mut listed = false;
            let mut j: usize = 0;
            while j < keep.len()
                invariant
                    j <= keep.len(),
                    kv == k@,
                    listed == (exists|q: int| 0 <= q < j && #[trigger] keep@[q]@ == kv),
                decreases keep.len() - j,
            {
                let eq = str_eq(keep[j].as_str(), k.as_str());
                if eq {
                    listed = true;
                }
                proof {
                    if eq {
                        assert(keep@[j as int]@ == kv);
                    } else if !listed {
                        assert forall|q: int| 0 <= q < j + 1 implies #[trigger] keep@[q]@ != kv by {
                        }
                    }
                }
                j = j + 1;
            }
            proof {
                if listed {
                    let q = choose|q: int| 0 <= q < keep@.len() && keep@[q]@ == kv;
                    assert(strs_view(keep@)[q] == kv);
                } else {
                    assert forall|q: int| 0 <= q < strs_view(keep@).len() implies strs_view(keep@)[q] != kv by {
                        assert(keep@[q]@ == strs_view(keep@)[q]);
                    }
                }
                assert(listed == ks.contains(kv));
            }
            let ghost prev = kept@;
            if listed {
                kept.insert(k, v);
            }
            proof {
                let s1 = ks.intersect(old_keys.take(i as int).to_set());
                let s2 = ks.intersect(old_keys.take(i + 1).to_set());
                let t0 = old_keys.take(i as int);
                let t1 = old_keys.take(i + 1);
                assert(t1 =~= t0.push(kv));
                assert forall|x: Seq<char>| t1.to_set().contains(x) == (t0.to_set().contains(x) || x == kv) by {
                    if t1.to_set().contains(x) {
                        let q = choose|q: int| 0 <= q < t1.len() && t1[q] == x;
                        if q < t0.len() {
                            assert(t0[q] == x);
                        }
                    }
                    if t0.to_set().contains(x) {
                        let q = choose|q: int| 0 <= q < t0.len() && t0[q] == x;
                        assert(t1[q] == x);
                    }
                    if x == kv {
                        assert(t1[i as int] == x);
                    }
                }
                assert(s2 =~= if listed { s1.insert(kv) } else { s1 });
                assert(old_map[kv] == v);
                assert(kept@ =~= old_map.restrict(s2));
            }
            i = i + 1;
        }
        proof {
            assert(old_keys.take(n as int) =~= old_keys);
            assert(ks.intersect(old_keys.to_set()) =~= ks.intersect(old_map.dom()));
            assert(old_map.restrict(ks.intersect(old_map.dom())) =~= old_map.restrict(ks));
        }
        proof {
            use_type_invariant(&kept);
        }
        self.entries = kept.entries;
        proof {
            self.lemma_wf();
        }
    }

    /// The keys in ascending order.
    pub fn key_list(&self) -> (ks: Vec<String>)
        ensures
            strs_view(ks@) == self.keys(),
            strictly_sorted(strs_view(ks@)),
            strs_view(ks@).to_set() == self@.dom(),
    {
        proof {
            use_type_invariant(self);
            self.lemma_wf();
        }
        let mut ks: Vec<String> = Vec::new();
        let mut i: usize = 0;
        while i < self.entries.len()
            invariant
                i <= self.entries@.len(),
                self.keys().len() == self.entries@.len(),
                strs_view(ks@) == self.keys().take(i as int),
            decreases self.entries@.len() - i,
        {
            assert(self.keys()[i as int] == self.entries@[i as int].0@);
            let c = self.entries[i].0.clone();
            assert(c@ == self.keys()[i as int]);
            let ghost before = ks@;
            ks.push(c);
            assert(ks@ == before.push(c));
            assert(strs_view(ks@) =~= strs_view(before).push(c@));
            i = i + 1;
            assert(strs_view(ks@) =~= self.keys().take(i as int));
        }
        assert(self.keys().take(i as int) =~= self.keys());
        ks
    }
}

impl<V: Clone> Clone for StrMap<V> {
    /// A copy with the same keys, each value cloned.
    fn clone(&self) -> (r: Self)
        ensures
            r@.dom() == self@.dom(),
    {
        proof {
            use_type_invariant(self);
            self.lemma_wf();
        }
        let mut entries: Vec<(String, V)> = Vec::new();
        let mut i: usize = 0;
        while i < self.entries.len()
            invariant
                i <= self.entries.len(),
                entries@.len() == i,
                forall|j: int| 0 <= j < i ==> (#[trigger] entries@[j]).0@ == self.entries@[j].0@,
            decreases self.entries.len() - i,
        {
            let k = self.entries[i].0.clone();
            let v = self.entries[i].1.clone();
            entries.push((k, v));
            i = i + 1;
        }
        assert(entries@.map_values(|e: (String, V)| e.0@) =~= self.keys());
        let r = StrMap { entries };
        proof {
            r.lemma_wf();
        }
        r
    }
}

impl<V> View for StrMap<V> {
    type V = Map<Seq<char>, V>;

    closed spec fn view(&self) -> Map<Seq<char>, V> {
        Map::new(|k: Seq<char>| self.keys().contains(k), |k: Seq<char>| self.vals()[self.index_of(k)])
    }
}

} // verus!

verus! {

impl StrMap<()> {
    /// Set membership.
    pub fn contains(&self, k: &str) -> (b: bool)
        ensures
            b == self@.dom().contains(k@),
    {
        self.contains_key(k)
    }

    /// Add a member; returns whether it was new.
    pub fn insert_key(&mut self, k: String) -> (added: bool)
        ensures
            final(self)@.dom() == old(self)@.dom().insert(k@),
            added == !old(self)@.dom().contains(k@),
            final(self).wf(),
    {
        self.insert(k, ())
    }

    /// Remove a member; returns whether it was present.
    pub fn remove_key(&mut self, k: &str) -> (removed: bool)
        ensures
            final(self)@.dom() == old(self)@.dom().remove(k@),
            removed == old(self)@.dom().contains(k@),
            final(self).wf(),
    {
        self.remove(k).is_some()
    }
}

} // verus!
