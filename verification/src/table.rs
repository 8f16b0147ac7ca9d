//! A small keyed table: the in-memory form of one class of persistent
//! storage entries.

use vstd::prelude::*;

use crate::address::Address;

verus! {

/// A key of a [`Table`]: a plain value that can be compared for identity.
pub trait TableKey: Copy + Sized {
    fn key_eq(&self, other: &Self) -> (r: bool)
        ensures
            r == (*self == *other),
    ;
}

impl TableKey for u64 {
    fn key_eq(&self, other: &Self) -> (r: bool) {
        *self == *other
    }
}

impl TableKey for Address {
    fn key_eq(&self, other: &Self) -> (r: bool) {
        self.same(other)
    }
}

/// A value that can be copied out of a table without changing its meaning.
pub trait Duplicate: View + Sized {
    fn duplicate(&self) -> (r: Self)
        ensures
            r@ == self@,
    ;
}

impl Duplicate for u32 {
    fn duplicate(&self) -> (r: Self) {
        *self
    }
}

impl Duplicate for bool {
    fn duplicate(&self) -> (r: Self) {
        *self
    }
}

/// Key/value entries with distinct keys. Its view is the finite map from
/// each stored key to the view of its value.
#[verifier::reject_recursive_types(K)]
pub struct Table<K: TableKey, V: View> {
    entries: Vec<(K, V)>,
    model: Ghost<Map<K, V::V>>,
}

impl<K: TableKey, V: View> View for Table<K, V> {
    type V = Map<K, V::V>;

    closed spec fn view(&self) -> Map<K, V::V> {
        self.model@
    }
}

/// `entries` has distinct keys and lists exactly the bindings of `model`.
pub closed spec fn entries_match<K, V: View>(entries: Seq<(K, V)>, model: Map<K, V::V>) -> bool {
    &&& forall|i: int, j: int|
        0 <= i < j < entries.len() ==> #[trigger] entries[i].0 != #[trigger] entries[j].0
    &&& forall|i: int|
        #![trigger entries[i]]
        0 <= i < entries.len() ==> model.contains_key(entries[i].0) && model[entries[i].0]
            == entries[i].1@
    &&& forall|k: K|
        #[trigger] model.contains_key(k) ==> exists|i: int|
            0 <= i < entries.len() && #[trigger] entries[i].0 == k
}

impl<K: TableKey, V: View> Table<K, V> {
    #[verifier::type_invariant]
    closed spec fn wf(self) -> bool {
        entries_match(self.entries@, self.model@)
    }

    /// An empty table.
    pub fn new() -> (r: Self)
        ensures
            r@ == Map::<K, V::V>::empty(),
    {
        Table { entries: Vec::new(), model: Ghost(Map::empty()) }
    }

    /// Number of stored entries.
    pub fn len(&self) -> (r: usize)
        ensures
            r == self@.len(),
    {
        proof {
            use_type_invariant(self);
            self.lemma_len();
        }
        self.entries.len()
    }

    proof fn lemma_len(&self)
        requires
            entries_match(self.entries@, self.model@),
        ensures
            self.model@.dom().finite(),
            self.model@.len() == self.entries@.len(),
        decreases self.entries@.len(),
    {
        let keys = self.entries@.map_values(|e: (K, V)| e.0);
        assert(keys.no_duplicates()) by {
            assert forall|i: int, j: int|
                0 <= i < keys.len() && 0 <= j < keys.len() && i != j implies keys[i]
                != keys[j] by {
                if i < j {
                    assert(self.entries@[i].0 != self.entries@[j].0);
                } else {
                    assert(self.entries@[j].0 != self.entries@[i].0);
                }
            }
        }
        assert(self.model@.dom() =~= keys.to_set()) by {
            assert forall|k: K| self.model@.dom().contains(k) implies keys.to_set().contains(k) by {
                let i = choose|i: int|
                    0 <= i < self.entries@.len() && #[trigger] self.entries@[i].0 == k;
                assert(keys[i] == k);
            }
            assert forall|k: K| keys.to_set().contains(k) implies self.model@.dom().contains(k) by {
                let i = choose|i: int| 0 <= i < keys.len() && keys[i] == k;
                assert(self.entries@[i].0 == k);
            }
        }
        keys.unique_seq_to_set();
    }

    /// Position of the entry with key `k`, if any.
    fn find(&self, k: &K) -> (r: Option<usize>)
        ensures
            match r {
                Some(i) => i < self.entries@.len() && self.entries@[i as int].0 == *k,
                None => forall|i: int|
                    0 <= i < self.entries@.len() ==> #[trigger] self.entries@[i].0 != *k,
            },
    {
        let mut i: usize = 0;
        while i < self.entries.len()
            invariant
                0 <= i <= self.entries@.len(),
                forall|j: int| 0 <= j < i ==> #[trigger] self.entries@[j].0 != *k,
            decreases self.entries@.len() - i,
        {
            if self.entries[i].0.key_eq(k) {
                return Some(i);
            }
            i = i + 1;
        }
        None
    }

    /// Whether an entry with key `k` is stored.
    pub fn contains(&self, k: &K) -> (r: bool)
        ensures
            r == self@.contains_key(*k),
    {
        proof {
            use_type_invariant(self);
        }
        match self.find(k) {
            Some(i) => {
                proof {
                    assert(self.entries@[i as int].0 == *k);
                }
                true
            },
            None => false,
        }
    }

    /// The value stored under `k`, if any.
    pub fn get(&self, k: &K) -> (r: Option<&V>)
        ensures
            match r {
                Some(v) => self@.contains_key(*k) && v@ == self@[*k],
                None => !self@.contains_key(*k),
            },
    {
        proof {
            use_type_invariant(self);
        }
        match self.find(k) {
            Some(i) => {
                proof {
                    assert(self.entries@[i as int].0 == *k);
                }
                Some(&self.entries[i].1)
            },
            None => None,
        }
    }

    /// Stores `v` under `k`, replacing any previous value.
    pub fn insert(&mut self, k: K, v: V)
        ensures
            final(self)@ == old(self)@.insert(k, v@),
    {
        let mut t = Table::new();
        std::mem::swap(self, &mut t);
        *self = t.inserted(k, v);
    }

    fn inserted(self, k: K, v: V) -> (r: Self)
        ensures
            r@ == self@.insert(k, v@),
    {
        proof {
            use_type_invariant(&self);
        }
        let ghost old_entries = self.entries@;
        let ghost new_model = self.model@.insert(k, v@);
        let pos = self.find(&k);
        let mut entries = self.entries;
        match pos {
            Some(i) => {
                entries.set(i, (k, v));
                proof {
                    assert forall|j: int|
                        #![trigger entries@[j]]
                        0 <= j < entries@.len() implies new_model.contains_key(
                        entries@[j].0,
                    ) && new_model[entries@[j].0] == entries@[j].1@ by {
                        if j != i {
                            assert(old_entries[j] == entries@[j]);
                            assert(old_entries[j].0 != k) by {
                                if j < i {
                                    assert(old_entries[j].0 != old_entries[i as int].0);
                                } else {
                                    assert(old_entries[i as int].0 != old_entries[j].0);
                                }
                            }
                        }
                    }
                    assert forall|kk: K| #[trigger]
                        new_model.contains_key(kk) implies exists|j: int|
                        0 <= j < entries@.len() && #[trigger] entries@[j].0 == kk by {
                        if kk == k {
                            assert(entries@[i as int].0 == kk);
                        } else {
                            let j = choose|j: int|
                                0 <= j < old_entries.len() && #[trigger] old_entries[j].0 == kk;
                            assert(entries@[j].0 == kk);
                        }
                    }
                }
                assert(entries_match(entries@, new_model));
                Table { entries, model: Ghost(new_model) }
            },
            None => {
                entries.push((k, v));
                proof {
                    let n = old_entries.len() as int;
                    assert forall|a: int, b: int|
                        0 <= a < b < entries@.len() implies #[trigger] entries@[a].0
                        != #[trigger] entries@[b].0 by {
                        if b == n {
                            assert(old_entries[a].0 != k);
                        } else {
                            assert(old_entries[a] == entries@[a]);
                            assert(old_entries[b] == entries@[b]);
                        }
                    }
                    assert forall|j: int|
                        #![trigger entries@[j]]
                        0 <= j < entries@.len() implies new_model.contains_key(
                        entries@[j].0,
                    ) && new_model[entries@[j].0] == entries@[j].1@ by {
                        if j < n {
                            assert(old_entries[j] == entries@[j]);
                            assert(old_entries[j].0 != k);
                        }
                    }
                    assert forall|kk: K| #[trigger]
                        new_model.contains_key(kk) implies exists|j: int|
                        0 <= j < entries@.len() && #[trigger] entries@[j].0 == kk by {
                        if kk == k {
                            assert(entries@[n].0 == kk);
                        } else {
                            let j = choose|j: int|
                                0 <= j < old_entries.len() && #[trigger] old_entries[j].0 == kk;
                            assert(entries@[j] == old_entries[j]);
                        }
                    }
                }
                assert(entries_match(entries@, new_model));
                Table { entries, model: Ghost(new_model) }
            },
        }
    }

    /// Removes the entry with key `k`, if any.
    pub fn remove(&mut self, k: &K)
        ensures
            final(self)@ == old(self)@.remove(*k),
    {
        let mut t = Table::new();
        std::mem::swap(self, &mut t);
        *self = t.removed(k);
    }

    fn removed(self, k: &K) -> (r: Self)
        ensures
            r@ == self@.remove(*k),
    {
        proof {
            use_type_invariant(&self);
        }
        let ghost old_entries = self.entries@;
        let ghost old_model = self.model@;
        let ghost new_model = self.model@.remove(*k);
        let pos = self.find(k);
        let mut entries = self.entries;
        match pos {
            Some(i) => {
                let _ = entries.remove(i);
                proof {
                    let ii = i as int;
                    assert forall|j: int|
                        0 <= j < entries@.len() implies #[trigger] entries@[j] == (
                        if j < ii {
                            old_entries[j]
                        } else {
                            old_entries[j + 1]
                        }) by {}
                    assert forall|a: int, b: int|
                        0 <= a < b < entries@.len() implies #[trigger] entries@[a].0
                        != #[trigger] entries@[b].0 by {
                        let oa = if a < ii {
                            a
                        } else {
                            a + 1
                        };
                        let ob = if b < ii {
                            b
                        } else {
                            b + 1
                        };
                        assert(old_entries[oa].0 != old_entries[ob].0);
                    }
                    assert forall|j: int|
                        #![trigger entries@[j]]
                        0 <= j < entries@.len() implies new_model.contains_key(
                        entries@[j].0,
                    ) && new_model[entries@[j].0] == entries@[j].1@ by {
                        let oj = if j < ii {
                            j
                        } else {
                            j + 1
                        };
                        assert(entries@[j] == old_entries[oj]);
                        if oj < ii {
                            assert(old_entries[oj].0 != old_entries[ii].0);
                        } else {
                            assert(old_entries[ii].0 != old_entries[oj].0);
                        }
                    }
                    assert forall|kk: K| #[trigger]
                        new_model.contains_key(kk) implies exists|j: int|
                        0 <= j < entries@.len() && #[trigger] entries@[j].0 == kk by {
                        let oj = choose|j: int|
                            0 <= j < old_entries.len() && #[trigger] old_entries[j].0 == kk;
                        assert(oj != ii);
                        if oj < ii {
                            assert(entries@[oj].0 == kk);
                        } else {
                            assert(entries@[oj - 1].0 == kk);
                        }
                    }
                }
                assert(entries_match(entries@, new_model));
                Table { entries, model: Ghost(new_model) }
            },
            None => {
                proof {
                    assert(!old_model.contains_key(*k));
                    assert(new_model =~= old_model);
                }
                assert(entries_match(entries@, new_model));
                Table { entries, model: Ghost(new_model) }
            },
        }
    }

    /// The key and value of the `i`-th stored entry (in storage order).
    pub fn entry(&self, i: usize) -> (r: (&K, &V))
        requires
            i < self@.len(),
        ensures
            self@.contains_key(*r.0),
            self@[*r.0] == r.1@,
    {
        proof {
            use_type_invariant(self);
            self.lemma_len();
        }
        (&self.entries[i].0, &self.entries[i].1)
    }
}

impl<K: TableKey, V: Duplicate> Table<K, V> {
    /// An independent copy of the table with the same contents.
    pub fn snapshot(&self) -> (r: Self)
        ensures
            r@ == self@,
    {
        proof {
            use_type_invariant(self);
        }
        let mut entries: Vec<(K, V)> = Vec::new();
        let mut i: usize = 0;
        while i < self.entries.len()
            invariant
                0 <= i <= self.entries@.len(),
                entries@.len() == i,
                forall|j: int|
                    #![trigger entries@[j]]
                    0 <= j < i ==> entries@[j].0 == self.entries@[j].0 && entries@[j].1@
                        == self.entries@[j].1@,
            decreases self.entries@.len() - i,
        {
            let k = self.entries[i].0;
            let v = self.entries[i].1.duplicate();
            entries.push((k, v));
            i = i + 1;
        }
        proof {
            assert forall|a: int, b: int|
                0 <= a < b < entries@.len() implies #[trigger] entries@[a].0
                != #[trigger] entries@[b].0 by {
                assert(self.entries@[a].0 != self.entries@[b].0);
            }
            assert forall|kk: K| #[trigger]
                self.model@.contains_key(kk) implies exists|j: int|
                0 <= j < entries@.len() && #[trigger] entries@[j].0 == kk by {
                let j = choose|j: int|
                    0 <= j < self.entries@.len() && #[trigger] self.entries@[j].0 == kk;
                assert(entries@[j].0 == kk);
            }
        }
        assert(entries_match(entries@, self.model@));
        Table { entries, model: Ghost(self.model@) }
    }
}

} // verus!
