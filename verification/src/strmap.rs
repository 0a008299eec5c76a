//! A small map keyed by strings (client addresses), kept as a vector of
//! distinct keys so that every operation is verified against a `Map` view.

use vstd::prelude::*;

verus! {

/// One key/value pair of a [`StrMap`].
pub struct StrEntry<V> {
    pub key: String,
    pub value: V,
}

/// A finite map from strings to values.
pub struct StrMap<V> {
    entries: Vec<StrEntry<V>>,
}

/// The map obtained by inserting the entries of `s` in order.
pub open spec fn entries_map<V>(s: Seq<StrEntry<V>>) -> Map<Seq<char>, V>
    decreases s.len(),
{
    if s.len() == 0 {
        Map::empty()
    } else {
        entries_map(s.drop_last()).insert(s.last().key@, s.last().value)
    }
}

/// Some entry among the first `i` of `s` has key `k`.
pub open spec fn key_in_prefix<V>(s: Seq<StrEntry<V>>, i: int, k: Seq<char>) -> bool {
    exists|t: int| 0 <= t < i && s[t].key@ == k
}

/// No key occurs twice in `s`.
pub open spec fn distinct_keys<V>(s: Seq<StrEntry<V>>) -> bool {
    forall|i: int, j: int| 0 <= i < s.len() && 0 <= j < s.len() && i != j ==> s[i].key@ != s[j].key@
}

/// The keys of the entries of `s` form the domain of `entries_map(s)`, and
/// each entry's value is the one the map holds.
pub proof fn lemma_entries_map<V>(s: Seq<StrEntry<V>>)
    requires
        distinct_keys(s),
    ensures
        entries_map(s).dom().finite(),
        entries_map(s).dom().len() == s.len(),
        forall|k: Seq<char>| #[trigger] entries_map(s).contains_key(k) <==> exists|i: int| 0 <= i < s.len() && s[i].key@ == k,
        forall|i: int| 0 <= i < s.len() ==> #[trigger] entries_map(s)[s[i].key@] == s[i].value,
    decreases s.len(),
{
    if s.len() > 0 {
        let p = s.drop_last();
        assert(distinct_keys(p));
        lemma_entries_map(p);
        let k = s.last().key@;
        assert(!entries_map(p).contains_key(k)) by {
            if entries_map(p).contains_key(k) {
                let i = choose|i: int| 0 <= i < p.len() && p[i].key@ == k;
                assert(s[i].key@ == s[s.len() - 1].key@);
            }
        }
        assert forall|k2: Seq<char>| #[trigger] entries_map(s).contains_key(k2) implies exists|i: int| 0 <= i < s.len() && s[i].key@ == k2 by {
            if k2 != k {
                let i = choose|i: int| 0 <= i < p.len() && p[i].key@ == k2;
                assert(s[i].key@ == k2);
            } else {
                assert(s[s.len() - 1].key@ == k2);
            }
        }
        assert forall|k2: Seq<char>| (exists|i: int| 0 <= i < s.len() && s[i].key@ == k2) implies #[trigger] entries_map(s).contains_key(k2) by {
            let i = choose|i: int| 0 <= i < s.len() && s[i].key@ == k2;
            if i < s.len() - 1 {
                assert(p[i].key@ == k2);
            }
        }
        assert forall|i: int| 0 <= i < s.len() implies #[trigger] entries_map(s)[s[i].key@] == s[i].value by {
            if i < s.len() - 1 {
                assert(p[i] == s[i]);
                assert(s[i].key@ != k);
            }
        }
    }
}

/// Replacing the value of entry `i` replaces the value under its key.
pub proof fn lemma_entries_map_update<V>(s: Seq<StrEntry<V>>, i: int, e: StrEntry<V>)
    requires
        distinct_keys(s),
        0 <= i < s.len(),
        e.key@ == s[i].key@,
    ensures
        entries_map(s.update(i, e)) == entries_map(s).insert(e.key@, e.value),
    decreases s.len(),
{
    let t = s.update(i, e);
    if i == s.len() - 1 {
        assert(t.drop_last() =~= s.drop_last());
        assert(entries_map(s.drop_last()).insert(e.key@, s.last().value).insert(e.key@, e.value)
            =~= entries_map(s.drop_last()).insert(e.key@, e.value));
    } else {
        assert(distinct_keys(s.drop_last()));
        lemma_entries_map_update(s.drop_last(), i, e);
        assert(t.drop_last() =~= s.drop_last().update(i, e));
        assert(s.last().key@ != e.key@);
        assert(entries_map(t) =~= entries_map(s).insert(e.key@, e.value));
    }
}

/// Removing entry `i` removes its key.
pub proof fn lemma_entries_map_remove<V>(s: Seq<StrEntry<V>>, i: int)
    requires
        distinct_keys(s),
        0 <= i < s.len(),
    ensures
        entries_map(s.remove(i)) == entries_map(s).remove(s[i].key@),
    decreases s.len(),
{
    let k = s[i].key@;
    if i == s.len() - 1 {
        assert(s.remove(i) =~= s.drop_last());
        assert(distinct_keys(s.drop_last()));
        lemma_entries_map(s.drop_last());
        assert(!entries_map(s.drop_last()).contains_key(k)) by {
            if entries_map(s.drop_last()).contains_key(k) {
                let j = choose|j: int| 0 <= j < s.len() - 1 && s.drop_last()[j].key@ == k;
                assert(s[j].key@ == s[i].key@);
            }
        }
        assert(entries_map(s.remove(i)) =~= entries_map(s).remove(k));
    } else {
        let p = s.drop_last();
        assert(distinct_keys(p));
        lemma_entries_map_remove(p, i);
        assert(s.remove(i).drop_last() =~= p.remove(i));
        assert(s.remove(i).last() == s.last());
        assert(s.last().key@ != k);
        assert(entries_map(s.remove(i)) =~= entries_map(s).remove(k));
    }
}

impl<V> StrMap<V> {
    /// The abstract map.
    pub closed spec fn view(&self) -> Map<Seq<char>, V> {
        entries_map(self.entries@)
    }

    /// Keys are distinct.
    pub closed spec fn wf(&self) -> bool {
        distinct_keys(self.entries@)
    }

    /// An empty map.
    pub fn new() -> (r: Self)
        ensures
            r.wf(),
            r.view() == Map::<Seq<char>, V>::empty(),
    {
        StrMap { entries: Vec::new() }
    }

    /// The number of keys.
    pub fn len(&self) -> (r: usize)
        requires
            self.wf(),
        ensures
            r as nat == self.view().dom().len(),
            self.view().dom().finite(),
    {
        proof {
            lemma_entries_map(self.entries@);
        }
        self.entries.len()
    }

    fn find(&self, key: &String) -> (r: Option<usize>)
        requires
            self.wf(),
        ensures
            match r {
                Some(i) => i < self.entries@.len() && self.entries@[i as int].key@ == key@,
                None => !self.view().contains_key(key@),
            },
    {
        proof {
            lemma_entries_map(self.entries@);
        }
        let mut i: usize = 0;
        while i < self.entries.len()
            invariant
                i <= self.entries@.len(),
                forall|j: int| 0 <= j < i ==> self.entries@[j].key@ != key@,
            decreases self.entries.len() - i,
        {
            if self.entries[i].key == *key {
                return Some(i);
            }
            i = i + 1;
        }
        None
    }

    /// A reference to the value under `key`.
    pub fn get_ref(&self, key: &String) -> (r: Option<&V>)
        requires
            self.wf(),
        ensures
            match r {
                Some(v) => self.view().contains_key(key@) && self.view()[key@] == *v,
                None => !self.view().contains_key(key@),
            },
    {
        proof {
            lemma_entries_map(self.entries@);
        }
        match self.find(key) {
            Some(i) => Some(&self.entries[i].value),
            None => None,
        }
    }

    /// The keys, each once, in the order they were first inserted.
    pub fn keys(&self) -> (r: Vec<String>)
        requires
            self.wf(),
        ensures
            r@.len() == self.view().dom().len(),
            forall|i: int| 0 <= i < r@.len() ==> self.view().contains_key(#[trigger] r@[i]@),
            forall|k: Seq<char>| self.view().contains_key(k) ==> exists|i: int| 0 <= i < r@.len() && r@[i]@ == k,
            forall|i: int, j: int| 0 <= i < r@.len() && 0 <= j < r@.len() && i != j ==> r@[i]@ != r@[j]@,
    {
        proof {
            lemma_entries_map(self.entries@);
        }
        let mut out: Vec<String> = Vec::new();
        let mut i: usize = 0;
        while i < self.entries.len()
            invariant
                i <= self.entries@.len(),
                out@.len() == i,
                forall|j: int| 0 <= j < i ==> (#[trigger] out@[j])@ == self.entries@[j].key@,
            decreases self.entries.len() - i,
        {
            out.push(self.entries[i].key.clone());
            i = i + 1;
        }
        assert forall|k: Seq<char>| self.view().contains_key(k) implies exists|i: int| 0 <= i < out@.len() && out@[i]@ == k by {
            let t = choose|t: int| 0 <= t < self.entries@.len() && self.entries@[t].key@ == k;
            assert(out@[t]@ == k);
        }
        out
    }

    /// Sets the value under `key`.
    pub fn insert(&mut self, key: &String, value: V)
        requires
            old(self).wf(),
        ensures
            final(self).wf(),
            final(self).view() == old(self).view().insert(key@, value),
    {
        proof {
            lemma_entries_map(self.entries@);
        }
        match self.find(key) {
            Some(i) => {
                let ghost s = self.entries@;
                let e = StrEntry { key: key.clone(), value };
                proof {
                    lemma_entries_map_update(s, i as int, e);
                }
                self.entries.set(i, e);
                assert(self.entries@ =~= s.update(i as int, e));
            },
            None => {
                let ghost s = self.entries@;
                let e = StrEntry { key: key.clone(), value };
                self.entries.push(e);
                assert(self.entries@.drop_last() =~= s);
                assert forall|a: int, b: int| 0 <= a < self.entries@.len() && 0 <= b < self.entries@.len() && a != b
                    implies self.entries@[a].key@ != self.entries@[b].key@ by {
                    if a == s.len() as int {
                        assert(entries_map(s).contains_key(s[b].key@));
                    } else if b == s.len() as int {
                        assert(entries_map(s).contains_key(s[a].key@));
                    }
                }
            },
        }
    }

    /// Removes `key`.
    pub fn remove(&mut self, key: &String)
        requires
            old(self).wf(),
        ensures
            final(self).wf(),
            final(self).view() == old(self).view().remove(key@),
    {
        match self.find(key) {
            Some(i) => {
                let ghost s = self.entries@;
                proof {
                    lemma_entries_map_remove(s, i as int);
                }
                self.entries.remove(i);
                assert(self.entries@ =~= s.remove(i as int));
                assert forall|a: int, b: int| 0 <= a < self.entries@.len() && 0 <= b < self.entries@.len() && a != b
                    implies self.entries@[a].key@ != self.entries@[b].key@ by {
                    let a2 = if a < i { a } else { a + 1 };
                    let b2 = if b < i { b } else { b + 1 };
                    assert(self.entries@[a] == s[a2]);
                    assert(self.entries@[b] == s[b2]);
                }
            },
            None => {
                assert(self.view() =~= self.view().remove(key@));
            },
        }
    }

    /// Removes every key.
    pub fn clear(&mut self)
        ensures
            final(self).wf(),
            final(self).view() == Map::<Seq<char>, V>::empty(),
    {
        self.entries = Vec::new();
    }

}

impl<V: Copy> StrMap<V> {
    /// The value under `key`.
    pub fn get(&self, key: &String) -> (r: Option<V>)
        requires
            self.wf(),
        ensures
            match r {
                Some(v) => self.view().contains_key(key@) && self.view()[key@] == v,
                None => !self.view().contains_key(key@),
            },
    {
        proof {
            lemma_entries_map(self.entries@);
        }
        match self.find(key) {
            Some(i) => Some(self.entries[i].value),
            None => None,
        }
    }

    /// Keeps only the entries whose value satisfies `keep`, where the executable
    /// test `f` decides `keep`.
    pub fn retain<F: Fn(V) -> bool>(&mut self, f: F, Ghost(keep): Ghost<spec_fn(V) -> bool>)
        requires
            old(self).wf(),
            forall|v: V| #[trigger] f.requires((v,)),
            forall|v: V, b: bool| f.ensures((v,), b) ==> b == keep(v),
        ensures
            final(self).wf(),
            final(self).view() == old(self).view().restrict(
                old(self).view().dom().filter(|k: Seq<char>| keep(old(self).view()[k]))),
    {
        let ghost s = self.entries@;
        let ghost m = self.view();
        proof {
            lemma_entries_map(s);
        }
        let mut kept: Vec<StrEntry<V>> = Vec::new();
        let mut i: usize = 0;
        let n = self.entries.len();
        while i < n
            invariant
                n == s.len(),
                self.entries@ == s,
                distinct_keys(s),
                m == entries_map(s),
                m.dom().finite(),
                forall|k: Seq<char>| #[trigger] m.contains_key(k) <==> key_in_prefix(s, n as int, k),
                forall|t: int| 0 <= t < s.len() ==> #[trigger] m[s[t].key@] == s[t].value,
                i <= n,
                forall|v: V| #[trigger] f.requires((v,)),
                forall|v: V, b: bool| f.ensures((v,), b) ==> b == keep(v),
                distinct_keys(kept@),
                forall|j: int| 0 <= j < kept@.len() ==> key_in_prefix(s, i as int, #[trigger] kept@[j].key@),
                entries_map(kept@) == m.restrict(
                    m.dom().filter(|k: Seq<char>| keep(m[k]) && key_in_prefix(s, i as int, k))),
            decreases n - i,
        {
            let e = &self.entries[i];
            let v = e.value;
            let b = f(v);
            let ghost before = kept@;
            let ghost ki = s[i as int].key@;
            proof {
                assert(key_in_prefix(s, n as int, ki));
                assert(m[ki] == v);
                assert forall|j: int| 0 <= j < before.len() implies before[j].key@ != ki by {
                    assert(key_in_prefix(s, i as int, before[j].key@));
                    let t = choose|t: int| 0 <= t < i && s[t].key@ == before[j].key@;
                }
                assert forall|k: Seq<char>| #[trigger] key_in_prefix(s, i + 1, k) <==> (key_in_prefix(s, i as int, k) || k == ki) by {
                    if key_in_prefix(s, i + 1, k) {
                        let t = choose|t: int| 0 <= t < i + 1 && s[t].key@ == k;
                        if t < i { assert(key_in_prefix(s, i as int, k)); }
                    }
                    if key_in_prefix(s, i as int, k) {
                        let t = choose|t: int| 0 <= t < i && s[t].key@ == k;
                        assert(0 <= t < i + 1 && s[t].key@ == k);
                    }
                    if k == ki {
                        assert(0 <= i < i + 1 && s[i as int].key@ == k);
                    }
                }
            }
            if b {
                let k = e.key.clone();
                kept.push(StrEntry { key: k, value: v });
                assert(kept@.drop_last() =~= before);
                assert(entries_map(kept@) =~= m.restrict(
                    m.dom().filter(|k: Seq<char>| keep(m[k]) && key_in_prefix(s, i + 1, k))));
            } else {
                assert(entries_map(kept@) =~= m.restrict(
                    m.dom().filter(|k: Seq<char>| keep(m[k]) && key_in_prefix(s, i + 1, k))));
            }
            i = i + 1;
        }
        assert(entries_map(kept@) =~= m.restrict(m.dom().filter(|k: Seq<char>| keep(m[k]))));
        self.entries = kept;
    }
}

} // verus!
