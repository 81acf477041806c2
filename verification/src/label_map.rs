//! An ordered map keyed by `String`, kept as a vector sorted strictly by key.
//! It iterates in the same order as a `BTreeMap<String, V>`: by the byte order
//! of the keys.
use vstd::prelude::*;

use crate::text::{chars_lt, chars_of, lemma_seq_lt_transitive, lemma_seq_lt_trichotomy, seq_lt, str_eq};

verus! {

/// Keys strictly increasing.
pub open spec fn keys_sorted<V>(s: Seq<(Seq<char>, V)>) -> bool {
    forall|i: int, j: int| 0 <= i < j < s.len() ==> seq_lt(#[trigger] s[i].0, #[trigger] s[j].0)
}

/// The key occurs in the entry sequence.
pub open spec fn has_key<V>(s: Seq<(Seq<char>, V)>, k: Seq<char>) -> bool {
    exists|i: int| 0 <= i < s.len() && #[trigger] s[i].0 == k
}

/// A position holding `k` (meaningful when `has_key(s, k)`).
pub open spec fn key_pos<V>(s: Seq<(Seq<char>, V)>, k: Seq<char>) -> int {
    choose|i: int| 0 <= i < s.len() && #[trigger] s[i].0 == k
}

/// The value stored under `k` (meaningful when `has_key(s, k)`).
pub open spec fn value_of<V>(s: Seq<(Seq<char>, V)>, k: Seq<char>) -> V {
    s[key_pos(s, k)].1
}

/// The entries after storing `v` under `k`: the entry is replaced in place
/// when the key is present, and inserted at its sorted position otherwise.
pub open spec fn inserted<V>(s: Seq<(Seq<char>, V)>, k: Seq<char>, v: V) -> Seq<(Seq<char>, V)> {
    if has_key(s, k) {
        s.update(key_pos(s, k), (k, v))
    } else {
        s.insert(lower_bound(s, k) as int, (k, v))
    }
}

/// The entries after removing `k`.
pub open spec fn removed<V>(s: Seq<(Seq<char>, V)>, k: Seq<char>) -> Seq<(Seq<char>, V)> {
    if has_key(s, k) {
        s.remove(key_pos(s, k))
    } else {
        s
    }
}

/// Index of the first entry whose key is not below `k`.
pub open spec fn lower_bound<V>(s: Seq<(Seq<char>, V)>, k: Seq<char>) -> nat
    decreases s.len(),
{
    if s.len() > 0 && seq_lt(s[0].0, k) {
        1 + lower_bound(s.drop_first(), k)
    } else {
        0
    }
}

pub proof fn lemma_lower_bound<V>(s: Seq<(Seq<char>, V)>, k: Seq<char>)
    ensures
        lower_bound(s, k) <= s.len(),
        forall|i: int| 0 <= i < lower_bound(s, k) ==> seq_lt(#[trigger] s[i].0, k),
        lower_bound(s, k) < s.len() ==> !seq_lt(s[lower_bound(s, k) as int].0, k),
    decreases s.len(),
{
    if s.len() > 0 && seq_lt(s[0].0, k) {
        lemma_lower_bound(s.drop_first(), k);
        assert forall|i: int| 0 <= i < lower_bound(s, k) implies seq_lt(#[trigger] s[i].0, k) by {
            if i > 0 {
                assert(s[i] == s.drop_first()[i - 1]);
            }
        }
    }
}

/// In a sorted sequence every entry from the lower bound on is above `k`
/// unless it is `k` itself.
pub proof fn lemma_lower_bound_sorted<V>(s: Seq<(Seq<char>, V)>, k: Seq<char>)
    requires
        keys_sorted(s),
    ensures
        forall|i: int| lower_bound(s, k) <= i < s.len() ==> !seq_lt(#[trigger] s[i].0, k),
        !has_key(s, k) ==> forall|i: int|
            lower_bound(s, k) <= i < s.len() ==> seq_lt(k, #[trigger] s[i].0),
{
    lemma_lower_bound(s, k);
    let p = lower_bound(s, k) as int;
    assert forall|i: int| p <= i < s.len() implies !seq_lt(#[trigger] s[i].0, k) by {
        if i > p && seq_lt(s[i].0, k) {
            lemma_seq_lt_transitive(s[p].0, s[i].0, k);
        }
    }
    if !has_key(s, k) {
        assert forall|i: int| p <= i < s.len() implies seq_lt(k, #[trigger] s[i].0) by {
            lemma_seq_lt_trichotomy(s[i].0, k);
            assert(s[i].0 != k);
        }
    }
}

/// Distinct positions of a sorted sequence hold distinct keys.
pub proof fn lemma_sorted_unique<V>(s: Seq<(Seq<char>, V)>, i: int, j: int)
    requires
        keys_sorted(s),
        0 <= i < s.len(),
        0 <= j < s.len(),
        s[i].0 == s[j].0,
    ensures
        i == j,
{
    if i < j {
        assert(seq_lt(s[i].0, s[j].0));
        lemma_seq_lt_trichotomy(s[i].0, s[j].0);
    } else if j < i {
        assert(seq_lt(s[j].0, s[i].0));
        lemma_seq_lt_trichotomy(s[j].0, s[i].0);
    }
}

/// In a sorted sequence the value of a key is the one at its position.
pub proof fn lemma_value_of_at<V>(s: Seq<(Seq<char>, V)>, i: int)
    requires
        keys_sorted(s),
        0 <= i < s.len(),
    ensures
        has_key(s, s[i].0),
        value_of(s, s[i].0) == s[i].1,
{
    let k = s[i].0;
    assert(has_key(s, k));
    let j = key_pos(s, k);
    assert(0 <= j < s.len() && s[j].0 == k);
    lemma_sorted_unique(s, i, j);
}

/// Position of the first entry (in key order) whose value satisfies `p`;
/// the length of the sequence when there is none.
pub open spec fn first_index<V>(s: Seq<(Seq<char>, V)>, p: spec_fn(V) -> bool) -> nat
    decreases s.len(),
{
    if s.len() == 0 {
        0
    } else if p(s[0].1) {
        0
    } else {
        1 + first_index(s.drop_first(), p)
    }
}

pub proof fn lemma_first_index<V>(s: Seq<(Seq<char>, V)>, p: spec_fn(V) -> bool)
    ensures
        first_index(s, p) <= s.len(),
        forall|i: int| 0 <= i < first_index(s, p) ==> !p(#[trigger] s[i].1),
        first_index(s, p) < s.len() ==> p(s[first_index(s, p) as int].1),
    decreases s.len(),
{
    if s.len() > 0 && !p(s[0].1) {
        lemma_first_index(s.drop_first(), p);
        assert forall|i: int| 0 <= i < first_index(s, p) implies !p(#[trigger] s[i].1) by {
            if i > 0 {
                assert(s[i] == s.drop_first()[i - 1]);
            }
        }
    }
}

/// The entries whose values satisfy `p`, in order.
pub open spec fn keep<V>(s: Seq<(Seq<char>, V)>, p: spec_fn(V) -> bool) -> Seq<(Seq<char>, V)>
    decreases s.len(),
{
    if s.len() == 0 {
        Seq::empty()
    } else if p(s.last().1) {
        keep(s.drop_last(), p).push(s.last())
    } else {
        keep(s.drop_last(), p)
    }
}

/// The keys of the entries whose values do not satisfy `p`, in order.
pub open spec fn dropped_keys<V>(s: Seq<(Seq<char>, V)>, p: spec_fn(V) -> bool) -> Seq<Seq<char>>
    decreases s.len(),
{
    if s.len() == 0 {
        Seq::empty()
    } else if p(s.last().1) {
        dropped_keys(s.drop_last(), p)
    } else {
        dropped_keys(s.drop_last(), p).push(s.last().0)
    }
}

/// A map from `String` keys to values, iterated in key order.
pub struct LabelMap<V: View> {
    entries: Vec<(String, V)>,
}

impl<V: View> LabelMap<V> {
    /// The entries in key order, keys taken by their characters.
    pub closed spec fn entries(&self) -> Seq<(Seq<char>, V::V)> {
        self.entries@.map_values(|e: (String, V)| (e.0@, e.1@))
    }

    /// The entries are sorted strictly by key.
    pub open spec fn wf(&self) -> bool {
        keys_sorted(self.entries())
    }

    pub open spec fn contains(&self, k: Seq<char>) -> bool {
        has_key(self.entries(), k)
    }

    pub open spec fn get_spec(&self, k: Seq<char>) -> V::V {
        value_of(self.entries(), k)
    }

    pub fn new() -> (m: Self)
        ensures
            m.entries() == Seq::<(Seq<char>, V::V)>::empty(),
            m.wf(),
    {
        let m = LabelMap { entries: Vec::new() };
        assert(m.entries() =~= Seq::<(Seq<char>, V::V)>::empty());
        m
    }

    pub fn len(&self) -> (n: usize)
        ensures
            n == self.entries().len(),
    {
        self.entries.len()
    }

    /// The value at position `i`.
    pub fn value_at(&self, i: usize) -> (v: &V)
        requires
            i < self.entries().len(),
        ensures
            v@ == self.entries()[i as int].1,
    {
        &self.entries[i].1
    }

    /// Position of the key, if present.
    pub fn find(&self, k: &str) -> (r: Option<usize>)
        requires
            self.wf(),
        ensures
            r is Some <==> self.contains(k@),
            r matches Some(i) ==> i < self.entries().len() && self.entries()[i as int].0 == k@
                && self.get_spec(k@) == self.entries()[i as int].1,
    {
        let mut i: usize = 0;
        while i < self.entries.len()
            invariant
                i <= self.entries@.len(),
                self.wf(),
                self.entries().len() == self.entries@.len(),
                forall|j: int| 0 <= j < i ==> self.entries()[j].0 != k@,
            decreases self.entries.len() - i,
        {
            if str_eq(self.entries[i].0.as_str(), k) {
                proof {
                    lemma_value_of_at(self.entries(), i as int);
                }
                return Some(i);
            }
            i = i + 1;
        }
        None
    }

    /// The value stored under `k`.
    pub fn get(&self, k: &str) -> (r: Option<&V>)
        requires
            self.wf(),
        ensures
            r is Some <==> self.contains(k@),
            r matches Some(v) ==> v@ == self.get_spec(k@),
    {
        match self.find(k) {
            Some(i) => Some(&self.entries[i].1),
            None => None,
        }
    }

    fn insert_index(&self, k: &Vec<char>) -> (p: usize)
        requires
            self.wf(),
        ensures
            p == lower_bound(self.entries(), k@),
    {
        proof {
            lemma_lower_bound(self.entries(), k@);
            lemma_lower_bound_sorted(self.entries(), k@);
        }
        let mut p: usize = 0;
        while p < self.entries.len() && chars_lt(&chars_of(self.entries[p].0.as_str()), k)
            invariant
                self.entries().len() == self.entries@.len(),
                p <= lower_bound(self.entries(), k@),
                lower_bound(self.entries(), k@) <= self.entries().len(),
                forall|i: int|
                    0 <= i < lower_bound(self.entries(), k@) ==> seq_lt(
                        #[trigger] self.entries()[i].0,
                        k@,
                    ),
                forall|i: int|
                    lower_bound(self.entries(), k@) <= i < self.entries().len() ==> !seq_lt(
                        #[trigger] self.entries()[i].0,
                        k@,
                    ),
            decreases self.entries.len() - p,
        {
            assert(self.entries()[p as int].0 == self.entries@[p as int].0@);
            p = p + 1;
        }
        if p < self.entries.len() {
            assert(self.entries()[p as int].0 == self.entries@[p as int].0@);
        }
        p
    }

    /// Stores `v` under `k`; returns the value that was there.
    pub fn insert(&mut self, k: String, v: V) -> (old_v: Option<V>)
        requires
            old(self).wf(),
        ensures
            final(self).wf(),
            final(self).entries() == inserted(old(self).entries(), k@, v@),
            old(self).contains(k@) ==> old_v is Some && old_v->0@ == old(self).get_spec(k@),
            !old(self).contains(k@) ==> old_v is None,
    {
        let ghost pre = self.entries();
        match self.find(k.as_str()) {
            Some(i) => {
                let (_, prev) = self.entries.remove(i);
                self.entries.insert(i, (k, v));
                proof {
                    lemma_value_of_at(pre, i as int);
                    lemma_sorted_unique(pre, i as int, key_pos(pre, k@));
                    assert(self.entries() =~= pre.update(i as int, (k@, v@)));
                    assert forall|a: int, b: int|
                        0 <= a < b < self.entries().len() implies seq_lt(
                        #[trigger] self.entries()[a].0,
                        #[trigger] self.entries()[b].0,
                    ) by {
                        assert(self.entries()[a].0 == pre[a].0);
                        assert(self.entries()[b].0 == pre[b].0);
                    }
                }
                Some(prev)
            },
            None => {
                let kc = chars_of(k.as_str());
                let p = self.insert_index(&kc);
                proof {
                    lemma_lower_bound(pre, k@);
                    lemma_lower_bound_sorted(pre, k@);
                }
                self.entries.insert(p, (k, v));
                proof {
                    let post = self.entries();
                    assert(post =~= pre.insert(p as int, (k@, v@)));
                    assert forall|a: int, b: int|
                        0 <= a < b < post.len() implies seq_lt(
                        #[trigger] post[a].0,
                        #[trigger] post[b].0,
                    ) by {
                        if b < p {
                            assert(post[a] == pre[a] && post[b] == pre[b]);
                        } else if b == p {
                            assert(post[a] == pre[a]);
                        } else if a < p {
                            assert(post[a] == pre[a] && post[b] == pre[b - 1]);
                            assert(seq_lt(pre[a].0, k@));
                            assert(seq_lt(k@, pre[b - 1].0));
                            lemma_seq_lt_transitive(pre[a].0, k@, pre[b - 1].0);
                        } else if a == p {
                            assert(post[b] == pre[b - 1]);
                        } else {
                            assert(post[a] == pre[a - 1] && post[b] == pre[b - 1]);
                        }
                    }
                }
                None
            },
        }
    }

    /// Replaces the value at position `i`, keeping its key.
    pub fn set_value_at(&mut self, i: usize, v: V)
        requires
            old(self).wf(),
            i < old(self).entries().len(),
        ensures
            final(self).wf(),
            final(self).entries() == old(self).entries().update(
                i as int,
                (old(self).entries()[i as int].0, v@),
            ),
    {
        let ghost pre = self.entries();
        let (key, _) = self.entries.remove(i);
        self.entries.insert(i, (key, v));
        proof {
            assert(self.entries() =~= pre.update(i as int, (pre[i as int].0, v@)));
            assert forall|a: int, b: int|
                0 <= a < b < self.entries().len() implies seq_lt(
                #[trigger] self.entries()[a].0,
                #[trigger] self.entries()[b].0,
            ) by {
                assert(self.entries()[a].0 == pre[a].0);
                assert(self.entries()[b].0 == pre[b].0);
            }
        }
    }

    /// Puts `f` of the value at position `i` in its place, keeping its key;
    /// `g` says what `f` does to a value's view.
    pub fn update_value_at<F: FnOnce(V) -> V>(
        &mut self,
        i: usize,
        f: F,
        Ghost(g): Ghost<spec_fn(V::V) -> V::V>,
    )
        requires
            old(self).wf(),
            i < old(self).entries().len(),
            forall|v: V| #[trigger] f.requires((v,)),
            forall|v: V, w: V| f.ensures((v,), w) ==> w@ == g(v@),
        ensures
            final(self).wf(),
            final(self).entries() == old(self).entries().update(
                i as int,
                (old(self).entries()[i as int].0, g(old(self).entries()[i as int].1)),
            ),
    {
        let ghost pre = self.entries();
        let (key, value) = self.entries.remove(i);
        assert(value@ == pre[i as int].1);
        let next = f(value);
        self.entries.insert(i, (key, next));
        proof {
            assert(self.entries() =~= pre.update(i as int, (pre[i as int].0, g(pre[i as int].1))));
            assert forall|a: int, b: int|
                0 <= a < b < self.entries().len() implies seq_lt(
                #[trigger] self.entries()[a].0,
                #[trigger] self.entries()[b].0,
            ) by {
                assert(self.entries()[a].0 == pre[a].0);
                assert(self.entries()[b].0 == pre[b].0);
            }
        }
    }

    /// Removes the entry at position `i` and returns it.
    pub fn remove_at(&mut self, i: usize) -> (e: (String, V))
        requires
            old(self).wf(),
            i < old(self).entries().len(),
        ensures
            final(self).wf(),
            (e.0@, e.1@) == old(self).entries()[i as int],
            final(self).entries() == old(self).entries().remove(i as int),
    {
        let ghost pre = self.entries();
        let e = self.entries.remove(i);
        proof {
            assert(self.entries() =~= pre.remove(i as int));
            assert forall|a: int, b: int|
                0 <= a < b < self.entries().len() implies seq_lt(
                #[trigger] self.entries()[a].0,
                #[trigger] self.entries()[b].0,
            ) by {
                if b < i {
                    assert(self.entries()[a] == pre[a] && self.entries()[b] == pre[b]);
                } else if a < i {
                    assert(self.entries()[a] == pre[a] && self.entries()[b] == pre[b + 1]);
                } else {
                    assert(self.entries()[a] == pre[a + 1] && self.entries()[b] == pre[b + 1]);
                }
            }
        }
        e
    }

    /// Keeps the entries whose values satisfy `f` (which decides `p`);
    /// returns the keys of the others, in order.
    pub fn retain<F: Fn(&V) -> bool>(&mut self, f: F, Ghost(p): Ghost<spec_fn(V::V) -> bool>) -> (gone: Vec<String>)
        requires
            old(self).wf(),
            forall|v: &V| #[trigger] f.requires((v,)),
            forall|v: &V, b: bool| f.ensures((v,), b) ==> p(v@) == b,
        ensures
            final(self).wf(),
            final(self).entries() == keep(old(self).entries(), p),
            gone@.map_values(|k: String| k@) == dropped_keys(old(self).entries(), p),
    {
        let ghost pre = self.entries();
        let mut old_entries: Vec<(String, V)> = Vec::new();
        std::mem::swap(&mut old_entries, &mut self.entries);
        assert(old_entries@.map_values(|e: (String, V)| (e.0@, e.1@)) == pre);
        let mut kept: Vec<(String, V)> = Vec::new();
        let mut gone: Vec<String> = Vec::new();
        let n = old_entries.len();
        let mut rest = old_entries;
        let mut i: usize = 0;
        while i < n
            invariant
                n == pre.len(),
                i <= n,
                rest@.len() == n - i,
                forall|j: int| 0 <= j < n - i ==> (#[trigger] rest@[j]).0@ == pre[i + j].0
                    && rest@[j].1@ == pre[i + j].1,
                keys_sorted(pre),
                kept@.map_values(|e: (String, V)| (e.0@, e.1@)) == keep(pre.take(i as int), p),
                gone@.map_values(|k: String| k@) == dropped_keys(pre.take(i as int), p),
                forall|a: int, m: int|
                    0 <= a < kept@.len() && i <= m < n ==> seq_lt(
                        #[trigger] kept@[a].0@,
                        #[trigger] pre[m].0,
                    ),
                keys_sorted(kept@.map_values(|e: (String, V)| (e.0@, e.1@))),
                forall|v: &V| #[trigger] f.requires((v,)),
                forall|v: &V, b: bool| f.ensures((v,), b) ==> p(v@) == b,
            decreases n - i,
        {
            let ghost rest_before = rest@;
            let e = rest.remove(0);
            assert(e.0@ == pre[i as int].0 && e.1@ == pre[i as int].1);
            assert forall|j: int| 0 <= j < n - (i + 1) implies (#[trigger] rest@[j]).0@ == pre[i + 1 + j].0
                && rest@[j].1@ == pre[i + 1 + j].1 by {
                assert(rest@[j] == rest_before[j + 1]);
            }
            assert(pre.take(i + 1).drop_last() =~= pre.take(i as int));
            assert(pre.take(i + 1).last() == pre[i as int]);
            if f(&e.1) {
                let ghost before = kept@;
                kept.push(e);
                proof {
                    let kv = kept@.map_values(|x: (String, V)| (x.0@, x.1@));
                    let bv = before.map_values(|x: (String, V)| (x.0@, x.1@));
                    assert(kv =~= bv.push(pre[i as int]));
                    assert forall|a: int, b: int| 0 <= a < b < kv.len() implies seq_lt(
                        #[trigger] kv[a].0,
                        #[trigger] kv[b].0,
                    ) by {
                        if b == kv.len() - 1 {
                            assert(kv[a].0 == before[a].0@);
                        } else {
                            assert(kv[a] == bv[a] && kv[b] == bv[b]);
                        }
                    }
                    assert forall|a: int, m: int| 0 <= a < kept@.len() && i + 1 <= m < n implies seq_lt(
                        #[trigger] kept@[a].0@,
                        #[trigger] pre[m].0,
                    ) by {
                        if a == kept@.len() - 1 {
                            assert(kept@[a].0@ == pre[i as int].0);
                        } else {
                            assert(kept@[a] == before[a]);
                        }
                    }
                }
            } else {
                let ghost before = gone@;
                gone.push(e.0);
                proof {
                    assert(gone@.map_values(|k: String| k@) =~= before.map_values(|k: String| k@).push(
                        pre[i as int].0,
                    ));
                }
            }
            i = i + 1;
        }
        assert(pre.take(n as int) =~= pre);
        self.entries = kept;
        gone
    }

    /// Removes the key; returns the value that was stored under it.
    pub fn remove(&mut self, k: &str) -> (r: Option<V>)
        requires
            old(self).wf(),
        ensures
            final(self).wf(),
            final(self).entries() == removed(old(self).entries(), k@),
            old(self).contains(k@) ==> r is Some && r->0@ == old(self).get_spec(k@),
            !old(self).contains(k@) ==> r is None,
    {
        let ghost pre = self.entries();
        match self.find(k) {
            Some(i) => {
                proof {
                    lemma_sorted_unique(pre, i as int, key_pos(pre, k@));
                }
                let (_, v) = self.remove_at(i);
                Some(v)
            },
            None => None,
        }
    }
}

} // verus!

verus! {

/// Storing `v` under `k` keeps the entries sorted; afterwards `k` is present
/// with value `v`, and every other key is present with its value exactly
/// when it was before.
pub proof fn law_inserted_lookup<V>(s: Seq<(Seq<char>, V)>, k: Seq<char>, v: V)
    requires
        keys_sorted(s),
    ensures
        keys_sorted(inserted(s, k, v)),
        has_key(inserted(s, k, v), k),
        value_of(inserted(s, k, v), k) == v,
        forall|k2: Seq<char>|
            k2 != k ==> (has_key(inserted(s, k, v), k2) == has_key(s, k2) && (has_key(s, k2)
                ==> value_of(inserted(s, k, v), k2) == value_of(s, k2))),
        inserted(s, k, v).len() == if has_key(s, k) {
            s.len()
        } else {
            s.len() + 1
        },
{
    let t = inserted(s, k, v);
    if has_key(s, k) {
        let p = key_pos(s, k);
        assert(0 <= p < s.len() && s[p].0 == k);
        assert(keys_sorted(t)) by {
            assert forall|a: int, b: int| 0 <= a < b < t.len() implies seq_lt(
                #[trigger] t[a].0,
                #[trigger] t[b].0,
            ) by {
                assert(t[a].0 == s[a].0 && t[b].0 == s[b].0);
            }
        }
        lemma_value_of_at(t, p);
        assert forall|k2: Seq<char>| k2 != k implies (has_key(t, k2) == has_key(s, k2) && (
        has_key(s, k2) ==> value_of(t, k2) == value_of(s, k2))) by {
            if has_key(s, k2) {
                let q = key_pos(s, k2);
                assert(q != p);
                assert(t[q] == s[q]);
                lemma_value_of_at(t, q);
                lemma_value_of_at(s, q);
            }
            if has_key(t, k2) {
                let q = key_pos(t, k2);
                assert(q != p);
                assert(t[q] == s[q]);
            }
        }
    } else {
        let p = lower_bound(s, k) as int;
        lemma_lower_bound(s, k);
        lemma_lower_bound_sorted(s, k);
        assert(keys_sorted(t)) by {
            assert forall|a: int, b: int| 0 <= a < b < t.len() implies seq_lt(
                #[trigger] t[a].0,
                #[trigger] t[b].0,
            ) by {
                if b < p {
                    assert(t[a] == s[a] && t[b] == s[b]);
                } else if b == p {
                    assert(t[a] == s[a]);
                } else if a < p {
                    assert(t[a] == s[a] && t[b] == s[b - 1]);
                    crate::text::lemma_seq_lt_transitive(s[a].0, k, s[b - 1].0);
                } else if a == p {
                    assert(t[b] == s[b - 1]);
                } else {
                    assert(t[a] == s[a - 1] && t[b] == s[b - 1]);
                }
            }
        }
        assert(t[p].0 == k);
        lemma_value_of_at(t, p);
        assert forall|k2: Seq<char>| k2 != k implies (has_key(t, k2) == has_key(s, k2) && (
        has_key(s, k2) ==> value_of(t, k2) == value_of(s, k2))) by {
            if has_key(s, k2) {
                let q = key_pos(s, k2);
                let q2 = if q < p {
                    q
                } else {
                    q + 1
                };
                assert(t[q2] == s[q]);
                lemma_value_of_at(t, q2);
                lemma_value_of_at(s, q);
            }
            if has_key(t, k2) {
                let q = key_pos(t, k2);
                assert(q != p);
                let q0 = if q < p {
                    q
                } else {
                    q - 1
                };
                assert(t[q] == s[q0]);
            }
        }
    }
}

/// Storing a value under a key that was absent and then removing that key
/// gives back the entries as they were.
pub proof fn law_insert_then_remove<V>(s: Seq<(Seq<char>, V)>, k: Seq<char>, v: V)
    requires
        keys_sorted(s),
        !has_key(s, k),
    ensures
        removed(inserted(s, k, v), k) == s,
        has_key(inserted(s, k, v), k),
        key_pos(inserted(s, k, v), k) == lower_bound(s, k),
{
    let t = inserted(s, k, v);
    let p = lower_bound(s, k) as int;
    lemma_lower_bound(s, k);
    law_inserted_lookup(s, k, v);
    assert(t[p].0 == k);
    assert(has_key(t, k));
    crate::label_map::lemma_sorted_unique(t, p, key_pos(t, k));
    assert(t.remove(p) =~= s);
}

/// Removing `k` keeps the entries sorted; afterwards `k` is absent, and every
/// other key is present with its value exactly when it was before.
pub proof fn law_removed_lookup<V>(s: Seq<(Seq<char>, V)>, k: Seq<char>)
    requires
        keys_sorted(s),
    ensures
        keys_sorted(removed(s, k)),
        !has_key(removed(s, k), k),
        forall|k2: Seq<char>|
            k2 != k ==> (has_key(removed(s, k), k2) == has_key(s, k2) && (has_key(s, k2)
                ==> value_of(removed(s, k), k2) == value_of(s, k2))),
{
    let t = removed(s, k);
    if has_key(s, k) {
        let p = key_pos(s, k);
        assert(0 <= p < s.len() && s[p].0 == k);
        assert(keys_sorted(t)) by {
            assert forall|a: int, b: int| 0 <= a < b < t.len() implies seq_lt(
                #[trigger] t[a].0,
                #[trigger] t[b].0,
            ) by {
                let oa = if a < p {
                    a
                } else {
                    a + 1
                };
                let ob = if b < p {
                    b
                } else {
                    b + 1
                };
                assert(t[a] == s[oa] && t[b] == s[ob]);
            }
        }
        if has_key(t, k) {
            let q = key_pos(t, k);
            let q0 = if q < p {
                q
            } else {
                q + 1
            };
            assert(t[q] == s[q0]);
            lemma_sorted_unique(s, p, q0);
        }
        assert forall|k2: Seq<char>| k2 != k implies (has_key(t, k2) == has_key(s, k2) && (
        has_key(s, k2) ==> value_of(t, k2) == value_of(s, k2))) by {
            if has_key(s, k2) {
                let q = key_pos(s, k2);
                assert(q != p);
                let q2 = if q < p {
                    q
                } else {
                    q - 1
                };
                assert(t[q2] == s[q]);
                lemma_value_of_at(t, q2);
                lemma_value_of_at(s, q);
            }
            if has_key(t, k2) {
                let q = key_pos(t, k2);
                let q0 = if q < p {
                    q
                } else {
                    q + 1
                };
                assert(t[q] == s[q0]);
            }
        }
    }
}

} // verus!
