//! An insertion-ordered map from names to values, used where the shell keeps
//! players, bluetooth devices and applications by name.
use vstd::prelude::*;

verus! {

/// A map from string keys to values that remembers the order in which keys
/// were first inserted. Keys are compared by their characters.
pub struct Keyed<V> {
    entries: Vec<(String, V)>,
}

impl<V> Keyed<V> {
    /// The entries in insertion order.
    pub closed spec fn pairs(self) -> Seq<(String, V)> {
        self.entries@
    }

    /// The key of the entry at position `i`, as characters.
    pub open spec fn key_at(self, i: int) -> Seq<char> {
        self.pairs()[i].0@
    }

    /// No two entries have keys with the same characters.
    pub open spec fn wf(self) -> bool {
        forall|i: int, j: int|
            0 <= i < self.pairs().len() && 0 <= j < self.pairs().len() && i != j ==> #[trigger] self.key_at(i)
                != #[trigger] self.key_at(j)
    }

    /// `k` is the key of some entry.
    pub open spec fn has_key(self, k: Seq<char>) -> bool {
        exists|i: int| 0 <= i < self.pairs().len() && #[trigger] self.key_at(i) == k
    }

    /// The position of the entry with key `k` (meaningful when `has_key(k)`).
    pub open spec fn index_of(self, k: Seq<char>) -> int {
        choose|i: int| 0 <= i < self.pairs().len() && #[trigger] self.key_at(i) == k
    }

    /// The map from keys to values.
    pub open spec fn as_map(self) -> Map<Seq<char>, V> {
        Map::new(|k: Seq<char>| self.has_key(k), |k: Seq<char>| self.pairs()[self.index_of(k)].1)
    }

    /// The entry at position `i` is what the map holds for its key.
    pub proof fn lemma_entry(self, i: int)
        requires
            self.wf(),
            0 <= i < self.pairs().len(),
        ensures
            self.as_map().dom().contains(self.key_at(i)),
            self.index_of(self.key_at(i)) == i,
            self.as_map()[self.key_at(i)] == self.pairs()[i].1,
    {
        assert(self.has_key(self.key_at(i)));
        let j = self.index_of(self.key_at(i));
        assert(self.key_at(j) == self.key_at(i));
    }

    /// An empty store.
    pub fn new() -> (r: Self)
        ensures
            r.wf(),
            r.pairs() == Seq::<(String, V)>::empty(),
            r.as_map() == Map::<Seq<char>, V>::empty(),
    {
        let r = Keyed { entries: Vec::new() };
        assert(r.as_map() =~= Map::<Seq<char>, V>::empty());
        r
    }

    /// The number of entries.
    pub fn len(&self) -> (n: usize)
        ensures
            n == self.pairs().len(),
    {
        self.entries.len()
    }

    /// The position of the entry with the given key.
    pub fn find(&self, key: &str) -> (r: Option<usize>)
        requires
            self.wf(),
        ensures
            r matches Some(i) ==> i < self.pairs().len() && self.key_at(i as int) == key@,
            r is None <==> !self.as_map().dom().contains(key@),
    {
        let wanted: String = key.to_owned();
        let mut i: usize = 0;
        while i < self.entries.len()
            invariant
                i <= self.entries.len(),
                wanted@ == key@,
                forall|j: int| 0 <= j < i ==> #[trigger] self.key_at(j) != key@,
            decreases self.entries.len() - i,
        {
            if self.entries[i].0 == wanted {
                proof {
                    assert(self.key_at(i as int) == key@);
                    assert(self.has_key(key@));
                }
                return Some(i);
            }
            i = i + 1;
        }
        None
    }

    /// Borrows the entry at position `i`.
    pub fn entry(&self, i: usize) -> (r: &(String, V))
        requires
            i < self.pairs().len(),
        ensures
            *r == self.pairs()[i as int],
    {
        &self.entries[i]
    }

    /// The value stored under `key`, if any.
    pub fn get(&self, key: &str) -> (r: Option<&V>)
        requires
            self.wf(),
        ensures
            r is Some <==> self.as_map().dom().contains(key@),
            r matches Some(v) ==> *v == self.as_map()[key@],
    {
        match self.find(key) {
            Some(i) => {
                proof {
                    self.lemma_entry(i as int);
                }
                Some(&self.entries[i].1)
            },
            None => None,
        }
    }

    /// Replaces the value at position `i`, keeping its key, and returns the old value.
    pub fn replace_at(&mut self, i: usize, value: V) -> (old_value: V)
        requires
            old(self).wf(),
            i < old(self).pairs().len(),
        ensures
            final(self).wf(),
            old_value == old(self).pairs()[i as int].1,
            final(self).pairs() == old(self).pairs().update(
                i as int,
                (old(self).pairs()[i as int].0, value),
            ),
            final(self).as_map() == old(self).as_map().insert(old(self).key_at(i as int), value),
    {
        let ghost old_self = *self;
        let mut old_value = value;
        std::mem::swap(&mut self.entries[i].1, &mut old_value);
        proof {
            assert forall|a: int, b: int|
                0 <= a < self.pairs().len() && 0 <= b < self.pairs().len() && a != b implies #[trigger] self.key_at(
                a,
            ) != #[trigger] self.key_at(b) by {
                assert(self.key_at(a) == old_self.key_at(a));
                assert(self.key_at(b) == old_self.key_at(b));
            }
            let k = old_self.key_at(i as int);
            old_self.lemma_entry(i as int);
            assert forall|key: Seq<char>| #[trigger] self.has_key(key) == old_self.has_key(key) by {
                if self.has_key(key) {
                    let j = self.index_of(key);
                    assert(old_self.key_at(j) == key);
                }
                if old_self.has_key(key) {
                    let j = old_self.index_of(key);
                    assert(self.key_at(j) == key);
                }
            }
            assert forall|key: Seq<char>| self.has_key(key) implies self.as_map()[key]
                == old_self.as_map().insert(k, value)[key] by {
                let j = self.index_of(key);
                assert(self.key_at(j) == key);
                self.lemma_entry(j);
                if key != k {
                    assert(j != i);
                    assert(self.pairs()[j] == old_self.pairs()[j]);
                    old_self.lemma_entry(j);
                } else {
                    assert(self.key_at(i as int) == k);
                    assert(j == i);
                }
            }
            assert(self.as_map() =~= old_self.as_map().insert(k, value));
        }
        old_value
    }

    /// Stores `value` under `key`: an existing entry with that key keeps its
    /// position and gets the new value, otherwise a new entry is appended.
    pub fn insert(&mut self, key: String, value: V)
        requires
            old(self).wf(),
        ensures
            final(self).wf(),
            final(self).as_map() == old(self).as_map().insert(key@, value),
            old(self).as_map().dom().contains(key@) ==> final(self).pairs() == old(
                self,
            ).pairs().update(
                old(self).index_of(key@),
                (old(self).pairs()[old(self).index_of(key@)].0, value),
            ),
            !old(self).as_map().dom().contains(key@) ==> final(self).pairs() == old(
                self,
            ).pairs().push((key, value)),
    {
        match self.find(key.as_str()) {
            Some(i) => {
                proof {
                    self.lemma_entry(i as int);
                }
                let _ = self.replace_at(i, value);
            },
            None => {
                let ghost old_self = *self;
                let ghost kv = key@;
                self.entries.push((key, value));
                proof {
                    let n = old_self.pairs().len() as int;
                    assert(self.key_at(n) == kv);
                    assert forall|a: int, b: int|
                        0 <= a < self.pairs().len() && 0 <= b < self.pairs().len() && a != b implies #[trigger] self.key_at(
                        a,
                    ) != #[trigger] self.key_at(b) by {
                        if a < n {
                            assert(self.key_at(a) == old_self.key_at(a));
                            assert(old_self.has_key(old_self.key_at(a)));
                        }
                        if b < n {
                            assert(self.key_at(b) == old_self.key_at(b));
                            assert(old_self.has_key(old_self.key_at(b)));
                        }
                    }
                    assert forall|k: Seq<char>| #[trigger] self.has_key(k) == (old_self.has_key(k) || k
                        == kv) by {
                        if self.has_key(k) {
                            let j = self.index_of(k);
                            if j < n {
                                assert(old_self.key_at(j) == k);
                            }
                        }
                        if old_self.has_key(k) {
                            let j = old_self.index_of(k);
                            assert(self.key_at(j) == k);
                        }
                    }
                    assert forall|k: Seq<char>| self.has_key(k) implies self.as_map()[k]
                        == old_self.as_map().insert(kv, value)[k] by {
                        let j = self.index_of(k);
                        self.lemma_entry(j);
                        if k != kv {
                            old_self.lemma_entry(j);
                        }
                    }
                    assert(self.as_map() =~= old_self.as_map().insert(kv, value));
                }
            },
        }
    }

    /// Removes every entry.
    pub fn clear(&mut self)
        ensures
            final(self).wf(),
            final(self).pairs() == Seq::<(String, V)>::empty(),
            final(self).as_map() == Map::<Seq<char>, V>::empty(),
    {
        self.entries.clear();
        assert(self.as_map() =~= Map::<Seq<char>, V>::empty());
    }
}

} // verus!
