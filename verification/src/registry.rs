//! A small table from handle numbers to entries.
//!
//! The handle tables of the volume manager are short, so a registry keeps its
//! entries in one vector and finds a key by walking it. To contracts it is a
//! map from keys to entries.

use vstd::prelude::*;

verus! {

/// Whether some entry of `entries` has the key `key`.
pub open spec fn has_key<T>(entries: Seq<(u64, T)>, key: u64) -> bool {
    exists|i: int| 0 <= i < entries.len() && (#[trigger] entries[i]).0 == key
}

/// A position at which `entries` holds the key `key`, where it has one.
pub open spec fn position<T>(entries: Seq<(u64, T)>, key: u64) -> int {
    choose|i: int| 0 <= i < entries.len() && (#[trigger] entries[i]).0 == key
}

/// Whether no key stands at two positions of `entries`.
pub open spec fn distinct_keys<T>(entries: Seq<(u64, T)>) -> bool {
    forall|i: int, j: int|
        0 <= i < j < entries.len() ==> (#[trigger] entries[i]).0 != (#[trigger] entries[j]).0
}

/// The map that a sequence of entries stands for.
pub open spec fn as_map<T>(entries: Seq<(u64, T)>) -> Map<u64, T> {
    Map::new(|key: u64| has_key(entries, key), |key: u64| entries[position(entries, key)].1)
}

/// With distinct keys, the position of a key is the one place where it stands.
pub proof fn lemma_position<T>(entries: Seq<(u64, T)>, i: int)
    requires
        distinct_keys(entries),
        0 <= i < entries.len(),
    ensures
        has_key(entries, entries[i].0),
        position(entries, entries[i].0) == i,
        as_map(entries).contains_key(entries[i].0),
        as_map(entries)[entries[i].0] == entries[i].1,
{
    let key = entries[i].0;
    let p = position(entries, key);
    assert(0 <= p < entries.len() && entries[p].0 == key);
    if p < i {
        assert(entries[p].0 != entries[i].0);
    }
    if i < p {
        assert(entries[i].0 != entries[p].0);
    }
}

/// Adding an entry under a new key adds that key to the map.
pub proof fn lemma_push<T>(entries: Seq<(u64, T)>, key: u64, item: T)
    requires
        distinct_keys(entries),
        !has_key(entries, key),
    ensures
        distinct_keys(entries.push((key, item))),
        as_map(entries.push((key, item))) == as_map(entries).insert(key, item),
{
    let after = entries.push((key, item));
    assert forall|i: int, j: int| 0 <= i < j < after.len() implies (#[trigger] after[i]).0 != (
    #[trigger] after[j]).0 by {
        if j == entries.len() {
            assert(entries[i].0 != key);
        } else {
            assert(entries[i].0 != entries[j].0);
        }
    }
    assert forall|k: u64| has_key(after, k) <==> (k == key || has_key(entries, k)) by {
        if has_key(after, k) {
            let i = position(after, k);
            if i < entries.len() {
                assert(entries[i].0 == k);
            }
        }
        if has_key(entries, k) {
            let i = position(entries, k);
            assert(after[i].0 == k);
        }
        if k == key {
            assert(after[entries.len() as int].0 == k);
        }
    }
    assert forall|k: u64| has_key(after, k) implies #[trigger] as_map(after)[k] == as_map(
        entries,
    ).insert(key, item)[k] by {
        let i = position(after, k);
        lemma_position(after, i);
        if i < entries.len() {
            assert(entries[i] == after[i]);
            lemma_position(entries, i);
        }
    }
    assert(as_map(after) =~= as_map(entries).insert(key, item));
}

/// Replacing the entry at a position changes the map at that entry's key.
pub proof fn lemma_update<T>(entries: Seq<(u64, T)>, p: int, item: T)
    requires
        distinct_keys(entries),
        0 <= p < entries.len(),
    ensures
        distinct_keys(entries.update(p, (entries[p].0, item))),
        as_map(entries.update(p, (entries[p].0, item))) == as_map(entries).insert(
            entries[p].0,
            item,
        ),
{
    let key = entries[p].0;
    let after = entries.update(p, (key, item));
    assert forall|i: int, j: int| 0 <= i < j < after.len() implies (#[trigger] after[i]).0 != (
    #[trigger] after[j]).0 by {
        assert(entries[i].0 != entries[j].0);
    }
    assert forall|k: u64| has_key(after, k) <==> has_key(entries, k) by {
        if has_key(after, k) {
            let i = position(after, k);
            assert(entries[i].0 == k);
        }
        if has_key(entries, k) {
            let i = position(entries, k);
            assert(after[i].0 == k);
        }
    }
    lemma_position(entries, p);
    assert forall|k: u64| has_key(after, k) implies #[trigger] as_map(after)[k] == as_map(
        entries,
    ).insert(key, item)[k] by {
        let i = position(after, k);
        lemma_position(after, i);
        lemma_position(entries, i);
    }
    assert(as_map(after) =~= as_map(entries).insert(key, item));
}

/// Taking the entry at a position out takes that entry's key out of the map.
pub proof fn lemma_remove<T>(entries: Seq<(u64, T)>, p: int)
    requires
        distinct_keys(entries),
        0 <= p < entries.len(),
    ensures
        distinct_keys(entries.remove(p)),
        as_map(entries.remove(p)) == as_map(entries).remove(entries[p].0),
{
    let key = entries[p].0;
    let after = entries.remove(p);
    assert forall|i: int| 0 <= i < after.len() implies #[trigger] after[i] == entries[if i < p {
        i
    } else {
        i + 1
    }] by {}
    assert forall|i: int, j: int| 0 <= i < j < after.len() implies (#[trigger] after[i]).0 != (
    #[trigger] after[j]).0 by {
        let a = if i < p {
            i
        } else {
            i + 1
        };
        let b = if j < p {
            j
        } else {
            j + 1
        };
        assert(entries[a].0 != entries[b].0);
    }
    assert forall|k: u64| has_key(after, k) <==> (k != key && has_key(entries, k)) by {
        if has_key(after, k) {
            let i = position(after, k);
            let a = if i < p {
                i
            } else {
                i + 1
            };
            assert(entries[a].0 == k);
            if a < p {
                assert(entries[a].0 != entries[p].0);
            } else {
                assert(entries[p].0 != entries[a].0);
            }
        }
        if k != key && has_key(entries, k) {
            let a = position(entries, k);
            let i = if a < p {
                a
            } else {
                a - 1
            };
            assert(after[i].0 == k);
        }
    }
    assert forall|k: u64| has_key(after, k) implies #[trigger] as_map(after)[k] == as_map(
        entries,
    ).remove(key)[k] by {
        let i = position(after, k);
        let a = if i < p {
            i
        } else {
            i + 1
        };
        lemma_position(after, i);
        lemma_position(entries, a);
    }
    assert(as_map(after) =~= as_map(entries).remove(key));
}

/// A table from handle numbers to entries.
pub struct Registry<T: Copy> {
    entries: Vec<(u64, T)>,
}

impl<T: Copy> View for Registry<T> {
    type V = Map<u64, T>;

    closed spec fn view(&self) -> Map<u64, T> {
        as_map(self.entries@)
    }
}

impl<T: Copy> Registry<T> {
    /// Whether the registry is well formed: no key stands in it twice.
    pub closed spec fn wf(&self) -> bool {
        distinct_keys(self.entries@)
    }

    /// How many entries the registry holds.
    pub closed spec fn count(&self) -> nat {
        self.entries@.len()
    }

    /// The key of the entry at position `i`, for `i` below the count.
    pub closed spec fn key_at(&self, i: int) -> u64 {
        self.entries@[i].0
    }

    /// Whether the positions and the map agree: every position holds a key of
    /// the map, and every key of the map stands at exactly one position.
    pub open spec fn covered(&self) -> bool {
        &&& forall|i: int| 0 <= i < self.count() ==> self@.contains_key(#[trigger] self.key_at(i))
        &&& forall|key: u64|
            self@.contains_key(key) ==> exists|i: int|
                0 <= i < self.count() && #[trigger] self.key_at(i) == key
        &&& forall|i: int, j: int|
            0 <= i < j < self.count() ==> #[trigger] self.key_at(i) != #[trigger] self.key_at(j)
    }

    /// In a well-formed registry the positions and the map agree.
    pub proof fn lemma_covered(&self)
        requires
            self.wf(),
        ensures
            self.covered(),
    {
        assert forall|i: int| 0 <= i < self.count() implies self@.contains_key(
            #[trigger] self.key_at(i),
        ) by {
            lemma_position(self.entries@, i);
        }
        assert forall|key: u64| self@.contains_key(key) implies exists|i: int|
            0 <= i < self.count() && #[trigger] self.key_at(i) == key by {
            let p = position(self.entries@, key);
            assert(self.key_at(p) == key);
        }
    }

    /// An empty registry.
    pub fn new() -> (r: Registry<T>)
        ensures
            r.wf(),
            r@ == Map::<u64, T>::empty(),
            r.count() == 0,
    {
        let r = Registry { entries: Vec::new() };
        assert(r@ =~= Map::<u64, T>::empty());
        r
    }

    /// How many entries the registry holds.
    pub fn len(&self) -> (r: usize)
        ensures
            r == self.count(),
    {
        self.entries.len()
    }

    /// The key and the entry at position `i`.
    pub fn entry(&self, i: usize) -> (r: (u64, T))
        requires
            self.wf(),
            i < self.count(),
        ensures
            r.0 == self.key_at(i as int),
            self@.contains_key(r.0),
            self@[r.0] == r.1,
    {
        proof {
            lemma_position(self.entries@, i as int);
        }
        self.entries[i]
    }

    /// The entry under `key`, if there is one.
    pub fn get(&self, key: u64) -> (r: Option<T>)
        requires
            self.wf(),
        ensures
            r == (if self@.contains_key(key) {
                Some(self@[key])
            } else {
                None
            }),
    {
        match self.find(key) {
            Some(p) => {
                proof {
                    lemma_position(self.entries@, p as int);
                }
                Some(self.entries[p].1)
            },
            None => None,
        }
    }

    /// Whether there is an entry under `key`.
    pub fn contains(&self, key: u64) -> (r: bool)
        ensures
            r == self@.contains_key(key),
    {
        self.find(key).is_some()
    }

    /// Puts `item` under `key`, in place of what was there.
    pub fn insert(&mut self, key: u64, item: T)
        requires
            old(self).wf(),
        ensures
            final(self).wf(),
            final(self)@ == old(self)@.insert(key, item),
    {
        match self.find(key) {
            Some(p) => {
                proof {
                    lemma_update(self.entries@, p as int, item);
                }
                self.entries.set(p, (key, item));
            },
            None => {
                proof {
                    lemma_push(self.entries@, key, item);
                }
                self.entries.push((key, item));
            },
        }
    }

    /// Takes the entry under `key` out and hands it back, if there is one.
    pub fn remove(&mut self, key: u64) -> (r: Option<T>)
        requires
            old(self).wf(),
        ensures
            final(self).wf(),
            final(self)@ == old(self)@.remove(key),
            r == (if old(self)@.contains_key(key) {
                Some(old(self)@[key])
            } else {
                None
            }),
    {
        match self.find(key) {
            Some(p) => {
                proof {
                    lemma_position(self.entries@, p as int);
                    lemma_remove(self.entries@, p as int);
                }
                let taken = self.entries.remove(p);
                Some(taken.1)
            },
            None => {
                assert(self@ =~= self@.remove(key));
                None
            },
        }
    }

    /// The position of `key`, if the registry holds it.
    fn find(&self, key: u64) -> (r: Option<usize>)
        ensures
            match r {
                Some(p) => p < self.entries@.len() && self.entries@[p as int].0 == key
                    && self@.contains_key(key),
                None => !self@.contains_key(key),
            },
    {
        let mut i: usize = 0;
        while i < self.entries.len()
            invariant
                i <= self.entries@.len(),
                forall|j: int| 0 <= j < i ==> (#[trigger] self.entries@[j]).0 != key,
            decreases self.entries@.len() - i,
        {
            if self.entries[i].0 == key {
                return Some(i);
            }
            i = i + 1;
        }
        None
    }
}

} // verus!
