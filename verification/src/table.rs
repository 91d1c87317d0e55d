use crate::bytes::same_hash;
use crate::types::OutPoint;
use vstd::prelude::*;

verus! {

/// A value that can stand as a key: it is copied freely and compared exactly.
pub trait Key: Copy {
    fn same_key(&self, other: &Self) -> (same: bool)
        ensures
            same == (*self == *other),
    ;
}

impl Key for [u8; 32] {
    fn same_key(&self, other: &[u8; 32]) -> (same: bool) {
        same_hash(self, other)
    }
}

impl Key for OutPoint {
    fn same_key(&self, other: &OutPoint) -> (same: bool) {
        self.same(other)
    }
}

/// A finite map held as a list of entries in the order in which their keys
/// were first inserted. No key occurs twice.
pub struct Table<K, V> {
    pub(crate) keys: Vec<K>,
    pub(crate) values: Vec<V>,
}

impl<K: Key, V> Table<K, V> {
    /// Every key has its value, and no key occurs twice.
    pub closed spec fn wf(&self) -> bool {
        &&& self.keys@.len() == self.values@.len()
        &&& self.keys@.no_duplicates()
    }

    /// The keys in the order of their first insertion.
    pub closed spec fn keys(&self) -> Seq<K> {
        self.keys@
    }

    /// The map that the table holds.
    pub closed spec fn view(&self) -> Map<K, V> {
        Map::new(
            |k: K| self.keys@.contains(k),
            |k: K| self.values@[self.keys@.index_of(k)],
        )
    }

    pub fn new() -> (table: Self)
        ensures
            table.wf(),
            table@ == Map::<K, V>::empty(),
            table.keys() == Seq::<K>::empty(),
    {
        let table = Table { keys: Vec::new(), values: Vec::new() };
        assert(table@ =~= Map::<K, V>::empty());
        table
    }

    /// The place of `key` among the entries.
    fn position(&self, key: &K) -> (at: Option<usize>)
        ensures
            match at {
                Some(i) => i < self.keys@.len() && self.keys@[i as int] == *key,
                None => !self.keys@.contains(*key),
            },
    {
        let mut i: usize = 0;
        while i < self.keys.len()
            invariant
                i <= self.keys@.len(),
                forall|j: int| 0 <= j < i ==> self.keys@[j] != *key,
            decreases self.keys@.len() - i,
        {
            if self.keys[i].same_key(key) {
                return Some(i);
            }
            i += 1;
        }
        None
    }

    /// The number of entries.
    pub fn len(&self) -> (len: usize)
        requires
            self.wf(),
        ensures
            len == self.keys().len(),
    {
        self.keys.len()
    }

    /// The key of the entry at place `at`.
    pub fn key_at(&self, at: usize) -> (key: K)
        requires
            self.wf(),
            at < self.keys().len(),
        ensures
            key == self.keys()[at as int],
            self@.contains_key(key),
    {
        assert(self.keys@.contains(self.keys@[at as int]));
        self.keys[at]
    }

    /// The value of the entry at place `at`.
    pub fn value_at(&self, at: usize) -> (value: &V)
        requires
            self.wf(),
            at < self.keys().len(),
        ensures
            self@.contains_key(self.keys()[at as int]),
            *value == self@[self.keys()[at as int]],
    {
        assert(self.keys@.contains(self.keys@[at as int]));
        assert(self.keys@.index_of(self.keys@[at as int]) == at);
        &self.values[at]
    }

    /// A table with the same keys in the same order, each bound to what
    /// `copy` makes of its value.
    pub fn clone_with<F: Fn(&V) -> V>(&self, copy: F) -> (table: Table<K, V>)
        requires
            forall|v: &V| copy.requires((v,)),
        ensures
            self.wf() ==> {
                &&& table.wf()
                &&& table.keys() == self.keys()
                &&& forall|k: K| table@.contains_key(k) == self@.contains_key(k)
                &&& forall|k: K| #[trigger]
                    self@.contains_key(k) ==> copy.ensures((&self@[k],), table@[k])
            },
    {
        let mut keys: Vec<K> = Vec::new();
        let mut values: Vec<V> = Vec::new();
        let mut i: usize = 0;
        while i < self.keys.len() && i < self.values.len()
            invariant
                forall|v: &V| copy.requires((v,)),
                i <= self.keys@.len(),
                i <= self.values@.len(),
                keys@ == self.keys@.take(i as int),
                values@.len() == i,
                forall|j: int| 0 <= j < i ==> copy.ensures((&self.values@[j],), #[trigger] values@[j]),
            decreases self.keys@.len() - i,
        {
            keys.push(self.keys[i]);
            values.push(copy(&self.values[i]));
            assert(keys@ =~= self.keys@.take(i + 1));
            i += 1;
        }
        let table = Table { keys, values };
        proof {
            if self.wf() {
                assert(table.keys@ =~= self.keys@);
                assert forall|k: K| #[trigger] self@.contains_key(k) implies copy.ensures(
                    (&self@[k],),
                    table@[k],
                ) by {
                    let j = self.keys@.index_of(k);
                    assert(self.keys@[j] == k);
                }
            }
        }
        table
    }

    /// The keys of the map are the listed keys, each listed once.
    pub proof fn lemma_keys(&self)
        requires
            self.wf(),
        ensures
            self.keys().no_duplicates(),
            forall|k: K| self@.contains_key(k) <==> self.keys().contains(k),
    {
    }

    pub fn contains_key(&self, key: &K) -> (found: bool)
        requires
            self.wf(),
        ensures
            found == self@.contains_key(*key),
    {
        self.position(key).is_some()
    }

    pub fn get(&self, key: &K) -> (value: Option<&V>)
        requires
            self.wf(),
        ensures
            match value {
                Some(v) => self@.contains_key(*key) && *v == self@[*key],
                None => !self@.contains_key(*key),
            },
    {
        match self.position(key) {
            Some(i) => {
                assert(self.keys@.contains(*key));
                assert(self.keys@.index_of(*key) == i);
                Some(&self.values[i])
            },
            None => None,
        }
    }

    /// Binds `key` to `value`, in place where the key is bound already and
    /// as the last entry otherwise.
    pub fn insert(&mut self, key: K, value: V)
        requires
            old(self).wf(),
        ensures
            final(self).wf(),
            final(self)@ == old(self)@.insert(key, value),
            final(self).keys() == if old(self)@.contains_key(key) {
                old(self).keys()
            } else {
                old(self).keys().push(key)
            },
    {
        match self.position(&key) {
            Some(i) => {
                self.values.set(i, value);
                assert(self.keys@.index_of(key) == i);
                assert forall|k: K| self.keys@.contains(k) implies #[trigger] self@[k] == old(
                    self,
                )@.insert(key, value)[k] by {
                    let j = self.keys@.index_of(k);
                    assert(self.keys@[j] == k);
                }
                assert(self@ =~= old(self)@.insert(key, value));
            },
            None => {
                self.keys.push(key);
                self.values.push(value);
                assert forall|k: K| self.keys@.contains(k) implies #[trigger] self@[k] == old(
                    self,
                )@.insert(key, value)[k] by {
                    let j = self.keys@.index_of(k);
                    assert(self.keys@[j] == k);
                    if k != key {
                        assert(old(self).keys@.contains(k));
                        let j0 = old(self).keys@.index_of(k);
                        assert(old(self).keys@[j0] == k);
                        assert(self.keys@[j0] == k);
                        assert(j == j0);
                    } else {
                        assert(self.keys@[old(self).keys@.len() as int] == key);
                    }
                }
                assert forall|k: K| self.keys@.contains(k) == old(self)@.insert(
                    key,
                    value,
                ).contains_key(k) by {
                    if self.keys@.contains(k) {
                        let j = self.keys@.index_of(k);
                        assert(self.keys@[j] == k);
                        if j < old(self).keys@.len() {
                            assert(old(self).keys@[j] == k);
                        }
                    }
                    if old(self).keys@.contains(k) {
                        let j0 = old(self).keys@.index_of(k);
                        assert(old(self).keys@[j0] == k);
                        assert(self.keys@[j0] == k);
                    }
                    if k == key {
                        assert(self.keys@[old(self).keys@.len() as int] == key);
                    }
                }
                assert(self@ =~= old(self)@.insert(key, value));
            },
        }
    }
}

} // verus!
