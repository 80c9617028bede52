//! A map kept as a list of entries.
use vstd::prelude::*;
use crate::addr::{SocketAddr, SocketDesc};

verus! {

/// What a table is keyed by: plain values that can be told apart.
pub trait Key: Copy {
    fn same(&self, other: &Self) -> (same: bool)
        ensures
            same == (*self == *other),
    ;
}

impl Key for SocketDesc {
    fn same(&self, other: &Self) -> (same: bool) {
        *self == *other
    }
}

impl Key for SocketAddr {
    fn same(&self, other: &Self) -> (same: bool) {
        *self == *other
    }
}

/// A map from keys to values. No key has two entries.
pub struct Table<K, V> {
    entries: Vec<(K, V)>,
}

impl<K, V> View for Table<K, V> {
    type V = Map<K, V>;

    closed spec fn view(&self) -> Map<K, V> {
        Map::new(
            |key: K| exists|i: int| 0 <= i < self.entries.len() && #[trigger] self.entries[i].0 == key,
            |key: K| self.entries[self.index_of(key)].1,
        )
    }
}

impl<K, V> Table<K, V> {
    spec fn index_of(&self, key: K) -> int {
        choose|i: int| 0 <= i < self.entries.len() && #[trigger] self.entries[i].0 == key
    }

    pub closed spec fn wf(&self) -> bool {
        forall|i: int, j: int|
            0 <= i < j < self.entries.len() ==> (#[trigger] self.entries[i]).0 != (
            #[trigger] self.entries[j]).0
    }

    proof fn lemma_entry(&self, i: int)
        requires
            self.wf(),
            0 <= i < self.entries.len(),
        ensures
            self@.contains_key(self.entries[i].0),
            self@[self.entries[i].0] == self.entries[i].1,
            self.index_of(self.entries[i].0) == i,
    {
        let key = self.entries[i].0;
        let j = self.index_of(key);
        assert(0 <= j < self.entries.len() && self.entries[j].0 == key);
        assert(i == j) by {
            if i < j {
                assert(self.entries[i].0 != self.entries[j].0);
            } else if j < i {
                assert(self.entries[j].0 != self.entries[i].0);
            }
        }
    }

    proof fn lemma_key(&self, key: K)
        requires
            self.wf(),
            self@.contains_key(key),
        ensures
            0 <= self.index_of(key) < self.entries.len(),
            self.entries[self.index_of(key)].0 == key,
    {
    }

    pub fn new() -> (table: Self)
        ensures
            table.wf(),
            table@ == Map::<K, V>::empty(),
    {
        let table = Table { entries: Vec::new() };
        assert(table@ =~= Map::<K, V>::empty());
        table
    }
}

impl<K: Key, V> Table<K, V> {
    fn position(&self, key: &K) -> (position: Option<usize>)
        requires
            self.wf(),
        ensures
            match position {
                Some(i) => {
                    &&& i < self.entries.len()
                    &&& self.entries[i as int].0 == *key
                    &&& self@.contains_key(*key)
                    &&& self@[*key] == self.entries[i as int].1
                },
                None => !self@.contains_key(*key),
            },
    {
        let mut i: usize = 0;
        while i < self.entries.len()
            invariant
                self.wf(),
                i <= self.entries.len(),
                forall|j: int| 0 <= j < i ==> (#[trigger] self.entries[j]).0 != *key,
            decreases self.entries.len() - i,
        {
            if self.entries[i].0.same(key) {
                proof {
                    self.lemma_entry(i as int);
                }
                return Some(i);
            }
            i += 1;
        }
        None
    }

    /// The value of `key`.
    pub fn get(&self, key: &K) -> (value: Option<&V>)
        requires
            self.wf(),
        ensures
            match value {
                Some(value) => self@.contains_key(*key) && self@[*key] == *value,
                None => !self@.contains_key(*key),
            },
    {
        match self.position(key) {
            Some(i) => Some(&self.entries[i].1),
            None => None,
        }
    }

    /// Takes the entry of `key` out and returns its value.
    pub fn remove(&mut self, key: &K) -> (value: Option<V>)
        requires
            old(self).wf(),
        ensures
            final(self).wf(),
            final(self)@ == old(self)@.remove(*key),
            match value {
                Some(value) => old(self)@.contains_key(*key) && old(self)@[*key] == value,
                None => !old(self)@.contains_key(*key),
            },
    {
        let ghost before = *self;
        match self.position(key) {
            Some(i) => {
                let (_, value) = self.entries.remove(i);
                proof {
                    let ghost at = |k: int| if k < i { k } else { k + 1 };
                    assert forall|k: int| 0 <= k < self.entries.len() implies #[trigger] self.entries[k]
                        == before.entries[at(k)] by {}
                    assert forall|j: int, k: int| 0 <= j < k < self.entries.len() implies (
                    #[trigger] self.entries[j]).0 != (#[trigger] self.entries[k]).0 by {
                        assert(before.entries[at(j)].0 != before.entries[at(k)].0);
                    }
                    assert forall|k: K| #[trigger] self@.contains_key(k) implies before@.remove(
                        *key,
                    ).contains_key(k) && before@[k] == self@[k] by {
                        self.lemma_key(k);
                        let j = self.index_of(k);
                        before.lemma_entry(at(j));
                        before.lemma_entry(i as int);
                    }
                    assert forall|k: K| before@.remove(*key).contains_key(k) implies
                        #[trigger] self@.contains_key(k) by {
                        before.lemma_key(k);
                        let j = before.index_of(k);
                        assert(j != i);
                        let n = if j < i { j } else { j - 1 };
                        assert(self.entries[n] == before.entries[at(n)]);
                        self.lemma_entry(n);
                    }
                    assert(self@ =~= before@.remove(*key));
                }
                Some(value)
            },
            None => {
                assert(self@ =~= before@.remove(*key));
                None
            },
        }
    }

    /// Sets the value of `key`, in place of an earlier one.
    pub fn insert(&mut self, key: K, value: V)
        requires
            old(self).wf(),
        ensures
            final(self).wf(),
            final(self)@ == old(self)@.insert(key, value),
    {
        let _ = self.remove(&key);
        let ghost before = *self;
        self.entries.push((key, value));
        proof {
            assert forall|k: int| 0 <= k < before.entries.len() implies #[trigger] self.entries[k]
                == before.entries[k] && before.entries[k].0 != key by {
                before.lemma_entry(k);
            }
            assert(self.wf());
            assert(self.entries[before.entries.len() as int] == (key, value));
            self.lemma_entry(before.entries.len() as int);
            assert forall|k: K| #[trigger] self@.contains_key(k) implies before@.insert(
                key,
                value,
            ).contains_key(k) && before@.insert(key, value)[k] == self@[k] by {
                self.lemma_key(k);
                let j = self.index_of(k);
                if j < before.entries.len() {
                    before.lemma_entry(j);
                }
            }
            assert forall|k: K| before@.insert(key, value).contains_key(k) implies
                #[trigger] self@.contains_key(k) by {
                if k != key {
                    before.lemma_key(k);
                    self.lemma_entry(before.index_of(k));
                }
            }
            assert(self@ =~= old(self)@.insert(key, value));
        }
    }
}

/// What a table gives, call by call: a new one gives nothing; after a key was set it gives
/// the value for this key, and for any other what it gave before; and after a key was
/// removed, which gives what the table gave for it, nothing for this key, and for any
/// other what it gave before.
pub proof fn tables_give_what_was_set<K: Key, V>(
    empty: Table<K, V>,
    set: &mut Table<K, V>,
    cut: &mut Table<K, V>,
    key: K,
    value: V,
    removed: Option<V>,
    asked: K,
    of_empty: Option<&V>,
    before: Table<K, V>,
    of_before: Option<&V>,
    after_set: Table<K, V>,
    of_set: Option<&V>,
    after_cut: Table<K, V>,
    of_cut: Option<&V>,
)
    requires
        call_ensures(Table::<K, V>::new, (), empty),
        call_ensures(Table::<K, V>::get, (&empty, &asked), of_empty),
        before.wf(),
        before == *old(set),
        before == *old(cut),
        call_ensures(Table::<K, V>::get, (&before, &asked), of_before),
        call_ensures(Table::<K, V>::insert, (set, key, value), ()),
        after_set == *final(set),
        call_ensures(Table::<K, V>::get, (&after_set, &asked), of_set),
        call_ensures(Table::<K, V>::remove, (cut, &key), removed),
        after_cut == *final(cut),
        call_ensures(Table::<K, V>::get, (&after_cut, &asked), of_cut),
    ensures
        empty.wf() && of_empty is None,
        after_set.wf() && after_cut.wf(),
        asked == key ==> {
            &&& of_set matches Some(got) && *got == value
            &&& of_cut is None
            &&& removed is Some <==> of_before is Some
            &&& removed matches Some(was) ==> was == *of_before->0
        },
        asked != key ==> of_set == of_before && of_cut == of_before,
{
}

} // verus!
