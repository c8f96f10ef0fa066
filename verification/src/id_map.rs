//! A finite map from ids to records, kept as a vector of entries with
//! distinct keys. Lookups, inserts and removals behave as on a `Map`; the
//! entries can also be walked by position.

use vstd::prelude::*;

verus! {

/// Keys that can be compared in executable code with the comparison that
/// specifications use.
pub trait MapKey: Copy + Sized {
    fn same(&self, other: &Self) -> (r: bool)
        ensures
            r == (*self == *other),
    ;
}

impl MapKey for u32 {
    fn same(&self, other: &Self) -> (r: bool) {
        *self == *other
    }
}

impl MapKey for u128 {
    fn same(&self, other: &Self) -> (r: bool) {
        *self == *other
    }
}

impl MapKey for i32 {
    fn same(&self, other: &Self) -> (r: bool) {
        *self == *other
    }
}

pub open spec fn keys_distinct<K, V>(s: Seq<(K, V)>) -> bool {
    forall|i: int, j: int| 0 <= i < s.len() && 0 <= j < s.len() && i != j ==> s[i].0 != s[j].0
}

pub open spec fn seq_has_key<K, V>(s: Seq<(K, V)>, k: K) -> bool {
    exists|i: int| 0 <= i < s.len() && s[i].0 == k
}

pub open spec fn seq_to_map<K, V>(s: Seq<(K, V)>) -> Map<K, V> {
    Map::new(
        |k: K| seq_has_key(s, k),
        |k: K| s[choose|i: int| 0 <= i < s.len() && s[i].0 == k].1,
    )
}

/// The walk without the entry holding `k` (unchanged when none does).
pub open spec fn entries_without<K, V>(s: Seq<(K, V)>, k: K) -> Seq<(K, V)> {
    if seq_has_key(s, k) {
        s.remove(choose|i: int| 0 <= i < s.len() && s[i].0 == k)
    } else {
        s
    }
}

/// The map is exactly the entries when keys are distinct.
pub proof fn lemma_seq_to_map_index<K, V>(s: Seq<(K, V)>, i: int)
    requires
        keys_distinct(s),
        0 <= i < s.len(),
    ensures
        seq_to_map(s).contains_key(s[i].0),
        seq_to_map(s)[s[i].0] == s[i].1,
{
    let k = s[i].0;
    assert(seq_has_key(s, k));
    let j = choose|j: int| 0 <= j < s.len() && s[j].0 == k;
    assert(j == i);
}

/// The map has one key per entry.
pub proof fn lemma_dom_len<K, V>(s: Seq<(K, V)>)
    requires
        keys_distinct(s),
    ensures
        seq_to_map(s).dom().finite(),
        seq_to_map(s).dom().len() == s.len(),
{
    let ks = s.map_values(|e: (K, V)| e.0);
    assert(ks.no_duplicates());
    assert forall|k: K| #[trigger] seq_to_map(s).dom().contains(k) == ks.to_set().contains(k) by {
        if seq_has_key(s, k) {
            let i = choose|i: int| 0 <= i < s.len() && s[i].0 == k;
            assert(ks[i] == k);
        }
        if ks.contains(k) {
            let i = choose|i: int| 0 <= i < ks.len() && ks[i] == k;
            assert(s[i].0 == k);
        }
    }
    assert(seq_to_map(s).dom() =~= ks.to_set());
    ks.unique_seq_to_set();
    vstd::seq_lib::seq_to_set_is_finite(ks);
}

#[derive(Debug)]
pub struct IdMap<K, V> {
    entries: Vec<(K, V)>,
}

impl<K, V> View for IdMap<K, V> {
    type V = Map<K, V>;

    closed spec fn view(&self) -> Map<K, V> {
        seq_to_map(self.entries@)
    }
}

impl<K, V> IdMap<K, V> {
    #[verifier::type_invariant]
    closed spec fn wf(&self) -> bool {
        keys_distinct(self.entries@)
    }
}

impl<K: MapKey, V> IdMap<K, V> {
    /// The entries in the order they are walked.
    pub closed spec fn entries(&self) -> Seq<(K, V)> {
        self.entries@
    }

    /// How the walk order relates to the map: every key once, each entry
    /// holding the map's value for its key.
    pub open spec fn walk_ok(&self) -> bool {
        &&& keys_distinct(self.entries())
        &&& self.entries().len() == self@.dom().len()
        &&& self@.dom().finite()
        &&& forall|i: int| #![trigger self.entries()[i]]
            0 <= i < self.entries().len() ==> self@.contains_key(self.entries()[i].0)
                && self@[self.entries()[i].0] == self.entries()[i].1
        &&& forall|k: K| #[trigger] self@.contains_key(k) ==> exists|i: int|
            0 <= i < self.entries().len() && self.entries()[i].0 == k
    }

    proof fn lemma_walk(&self)
        requires
            keys_distinct(self.entries@),
        ensures
            self.walk_ok(),
    {
        let s = self.entries@;
        assert forall|i: int| #![trigger s[i]] 0 <= i < s.len() implies self@.contains_key(s[i].0) && self@[s[i].0] == s[i].1 by {
            lemma_seq_to_map_index(s, i);
        }
        lemma_dom_len(s);
    }

    /// The walk order after `insert(k, v)`: a known key keeps its place,
    /// a new one goes last.
    pub closed spec fn entries_after_insert(&self, k: K, v: V) -> Seq<(K, V)> {
        let s = self.entries@;
        if seq_has_key(s, k) {
            s.update(choose|i: int| 0 <= i < s.len() && s[i].0 == k, (k, v))
        } else {
            s.push((k, v))
        }
    }

    pub fn new() -> (m: Self)
        ensures
            m@ == Map::<K, V>::empty(),
            m.entries().len() == 0,
            m.walk_ok(),
    {
        let m = IdMap { entries: Vec::new() };
        assert(m@ =~= Map::<K, V>::empty());
        proof { m.lemma_walk(); }
        m
    }

    pub fn len(&self) -> (n: usize)
        ensures
            n == self@.dom().len(),
            n == self.entries().len(),
            self.walk_ok(),
    {
        proof { use_type_invariant(self); self.lemma_walk(); }
        self.entries.len()
    }

    /// The entry at a position of the walk.
    pub fn entry(&self, i: usize) -> (e: &(K, V))
        requires
            i < self.entries().len(),
        ensures
            *e == self.entries()[i as int],
            self@.contains_key(e.0),
            self@[e.0] == e.1,
    {
        proof { use_type_invariant(self); self.lemma_walk(); }
        &self.entries[i]
    }

    /// The key at a position of the walk.
    pub fn key_at(&self, i: usize) -> (k: K)
        requires
            i < self.entries().len(),
        ensures
            k == self.entries()[i as int].0,
            self@.contains_key(k),
    {
        proof { use_type_invariant(self); self.lemma_walk(); }
        self.entries[i].0
    }

    fn position(&self, k: &K) -> (r: Option<usize>)
        ensures
            r matches Some(i) ==> i < self.entries@.len() && self.entries@[i as int].0 == *k,
            r is None ==> !seq_has_key(self.entries@, *k),
    {
        let mut i: usize = 0;
        while i < self.entries.len()
            invariant
                i <= self.entries@.len(),
                forall|j: int| 0 <= j < i ==> self.entries@[j].0 != *k,
            decreases self.entries@.len() - i,
        {
            if self.entries[i].0.same(k) {
                return Some(i);
            }
            i = i + 1;
        }
        None
    }

    pub fn contains_key(&self, k: &K) -> (r: bool)
        ensures
            r == self@.contains_key(*k),
    {
        self.position(k).is_some()
    }

    pub fn get(&self, k: &K) -> (r: Option<&V>)
        ensures
            r is Some == self@.contains_key(*k),
            r matches Some(v) ==> *v == self@[*k],
    {
        proof { use_type_invariant(self); }
        match self.position(k) {
            Some(i) => {
                proof { lemma_seq_to_map_index(self.entries@, i as int); }
                Some(&self.entries[i].1)
            },
            None => None,
        }
    }

    pub fn insert(&mut self, k: K, v: V)
        ensures
            final(self)@ == old(self)@.insert(k, v),
            final(self).entries() == old(self).entries_after_insert(k, v),
    {
        proof { use_type_invariant(&*self); }
        let ghost old_s = self.entries@;
        match self.position(&k) {
            Some(i) => {
                let mut entries = Vec::new();
                std::mem::swap(&mut entries, &mut self.entries);
                entries.set(i, (k, v));
                let ghost s = entries@;
                proof {
                    let j = choose|j: int| 0 <= j < old_s.len() && old_s[j].0 == k;
                    assert(j == i);
                }
                assert(keys_distinct(s));
                self.entries = entries;
                proof {
                    assert forall|key: K| #[trigger] seq_has_key(s, key) == (seq_has_key(old_s, key) || key == k) by {
                        if seq_has_key(old_s, key) {
                            let j = choose|j: int| 0 <= j < old_s.len() && old_s[j].0 == key;
                            assert(s[j].0 == key);
                        }
                        if seq_has_key(s, key) {
                            let j = choose|j: int| 0 <= j < s.len() && s[j].0 == key;
                            if j != i { assert(old_s[j].0 == key); }
                        }
                    }
                    assert forall|key: K| seq_has_key(s, key) implies seq_to_map(s)[key] == seq_to_map(old_s).insert(k, v)[key] by {
                        let j = choose|j: int| 0 <= j < s.len() && s[j].0 == key;
                        lemma_seq_to_map_index(s, j);
                        if key != k {
                            lemma_seq_to_map_index(old_s, j);
                        }
                    }
                    assert(self@ =~= seq_to_map(old_s).insert(k, v));
                }
            },
            None => {
                let mut entries = Vec::new();
                std::mem::swap(&mut entries, &mut self.entries);
                entries.push((k, v));
                let ghost s = entries@;
                proof {
                    assert(keys_distinct(s));
                }
                self.entries = entries;
                proof {
                    assert(keys_distinct(s));
                    assert forall|key: K| #[trigger] seq_has_key(s, key) == (seq_has_key(old_s, key) || key == k) by {
                        if seq_has_key(old_s, key) {
                            let j = choose|j: int| 0 <= j < old_s.len() && old_s[j].0 == key;
                            assert(s[j].0 == key);
                        }
                        if key == k {
                            assert(s[old_s.len() as int].0 == key);
                        }
                    }
                    assert forall|key: K| seq_has_key(s, key) implies seq_to_map(s)[key] == seq_to_map(old_s).insert(k, v)[key] by {
                        let j = choose|j: int| 0 <= j < s.len() && s[j].0 == key;
                        lemma_seq_to_map_index(s, j);
                        if key != k {
                            lemma_seq_to_map_index(old_s, j);
                        }
                    }
                    assert(self@ =~= seq_to_map(old_s).insert(k, v));
                }
            },
        }
    }

    pub fn remove(&mut self, k: &K) -> (r: Option<V>)
        ensures
            final(self)@ == old(self)@.remove(*k),
            final(self).entries() == entries_without(old(self).entries(), *k),
            r is Some == old(self)@.contains_key(*k),
            r matches Some(v) ==> v == old(self)@[*k],
    {
        proof { use_type_invariant(&*self); }
        let ghost old_s = self.entries@;
        match self.position(k) {
            Some(i) => {
                proof {
                    lemma_seq_to_map_index(old_s, i as int);
                    let j = choose|j: int| 0 <= j < old_s.len() && old_s[j].0 == *k;
                    assert(j == i);
                }
                let mut entries = Vec::new();
                std::mem::swap(&mut entries, &mut self.entries);
                let e = entries.remove(i);
                let ghost s = entries@;
                proof {
                    assert(s =~= old_s.remove(i as int));
                    assert(keys_distinct(s));
                }
                self.entries = entries;
                proof {
                    assert forall|key: K| #[trigger] seq_has_key(s, key) == (seq_has_key(old_s, key) && key != *k) by {
                        if seq_has_key(old_s, key) && key != *k {
                            let j = choose|j: int| 0 <= j < old_s.len() && old_s[j].0 == key;
                            if j < i { assert(s[j].0 == key); } else { assert(s[j - 1].0 == key); }
                        }
                        if seq_has_key(s, key) {
                            let j = choose|j: int| 0 <= j < s.len() && s[j].0 == key;
                            if j < i { assert(old_s[j].0 == key); } else { assert(old_s[j + 1].0 == key); }
                        }
                    }
                    assert forall|key: K| seq_has_key(s, key) implies seq_to_map(s)[key] == seq_to_map(old_s)[key] by {
                        let j = choose|j: int| 0 <= j < s.len() && s[j].0 == key;
                        lemma_seq_to_map_index(s, j);
                        if j < i { lemma_seq_to_map_index(old_s, j); } else { lemma_seq_to_map_index(old_s, j + 1); }
                    }
                    assert(self@ =~= seq_to_map(old_s).remove(*k));
                }
                Some(e.1)
            },
            None => {
                proof { assert(seq_to_map(old_s).remove(*k) =~= seq_to_map(old_s)); }
                None
            },
        }
    }
}

} // verus!
