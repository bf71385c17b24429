//! Keyed state for the operators that keep any.

use vstd::prelude::*;
use crate::operations::data::{clone_values, values, DataType, Value};

verus! {

/// A group-by tuple: the key under which an operator keeps state.
pub type Key = Vec<DataType>;

/// What a store holds under a key: the empty list where it holds nothing.
pub open spec fn stored(contents: Map<Seq<Value>, Seq<Value>>, key: Seq<Value>) -> Seq<Value> {
    if contents.contains_key(key) {
        contents[key]
    } else {
        Seq::empty()
    }
}

/// Keyed storage for stateful operators. Keys are compared by value.
pub trait State {
    /// The store's own invariant: `set` keeps it, `get` relies on it.
    spec fn well_formed(&self) -> bool;

    /// The values kept under each key.
    spec fn contents(&self) -> Map<Seq<Value>, Seq<Value>>;

    /// The values kept under the key; the empty list if there are none.
    fn get(&self, key: &Key) -> (found: Vec<DataType>)
        requires
            self.well_formed(),
        ensures
            values(found@) == stored(self.contents(), values(key@)),
    ;

    /// Replaces what is kept under the key.
    fn set(&mut self, key: Key, data: Vec<DataType>)
        requires
            old(self).well_formed(),
        ensures
            final(self).well_formed(),
            final(self).contents() == old(self).contents().insert(values(key@), values(data@)),
    ;
}

/// Whether two lists of values stand for the same values.
pub fn same_values(a: &Vec<DataType>, b: &Vec<DataType>) -> (r: bool)
    ensures
        r == (values(a@) == values(b@)),
{
    if a.len() != b.len() {
        assert(values(a@).len() != values(b@).len());
        return false;
    }
    let mut i: usize = 0;
    while i < a.len()
        invariant
            i <= a.len(),
            a.len() == b.len(),
            forall|j: int| 0 <= j < i ==> a[j]@ == b[j]@,
        decreases a.len() - i,
    {
        if !a[i].same(&b[i]) {
            assert(values(a@)[i as int] != values(b@)[i as int]);
            return false;
        }
        i += 1;
    }
    assert(values(a@) =~= values(b@));
    true
}

/// An in-memory store: a list of entries in which no key occurs twice.
pub struct MemStore {
    entries: Vec<(Key, Vec<DataType>)>,
}

impl MemStore {
    /// The key of the entry at a position.
    pub closed spec fn key_at(&self, i: int) -> Seq<Value> {
        values(self.entries@[i].0@)
    }

    /// Whether some entry has the key.
    pub closed spec fn has(&self, key: Seq<Value>) -> bool {
        exists|i: int| 0 <= i < self.entries@.len() && self.key_at(i) == key
    }

    /// The position of an entry with the key.
    pub closed spec fn position(&self, key: Seq<Value>) -> int {
        choose|i: int| 0 <= i < self.entries@.len() && self.key_at(i) == key
    }

    /// No key occurs twice.
    pub closed spec fn distinct(&self) -> bool {
        forall|i: int, j: int|
            0 <= i < j < self.entries@.len() ==> self.key_at(i) != self.key_at(j)
    }

    /// An empty store.
    pub fn new() -> (r: Self)
        ensures
            r.well_formed(),
            r.contents() == Map::<Seq<Value>, Seq<Value>>::empty(),
    {
        let r = MemStore { entries: Vec::new() };
        assert(r.contents() =~= Map::<Seq<Value>, Seq<Value>>::empty());
        r
    }

    /// The position of the entry with the given key, if there is one.
    fn find(&self, key: &Key) -> (r: Option<usize>)
        ensures
            match r {
                Some(i) => i < self.entries@.len() && self.key_at(i as int) == values(key@),
                None => !self.has(values(key@)),
            },
    {
        let mut i: usize = 0;
        while i < self.entries.len()
            invariant
                i <= self.entries.len(),
                forall|j: int| 0 <= j < i ==> self.key_at(j) != values(key@),
            decreases self.entries.len() - i,
        {
            if same_values(&self.entries[i].0, key) {
                return Some(i);
            }
            i += 1;
        }
        None
    }

    /// With distinct keys, a key leads back to the one entry that has it.
    proof fn found_at(&self, i: int)
        requires
            self.distinct(),
            0 <= i < self.entries@.len(),
        ensures
            self.has(self.key_at(i)),
            self.position(self.key_at(i)) == i,
            self.contents().contains_key(self.key_at(i)),
            self.contents()[self.key_at(i)] == values(self.entries@[i].1@),
    {
        let j = self.position(self.key_at(i));
        assert(0 <= j < self.entries@.len() && self.key_at(j) == self.key_at(i));
        if j < i {
            assert(self.key_at(j) != self.key_at(i));
        } else if i < j {
            assert(self.key_at(i) != self.key_at(j));
        }
    }
}

impl State for MemStore {
    closed spec fn well_formed(&self) -> bool {
        self.distinct()
    }

    closed spec fn contents(&self) -> Map<Seq<Value>, Seq<Value>> {
        Map::new(
            |k: Seq<Value>| self.has(k),
            |k: Seq<Value>| values(self.entries@[self.position(k)].1@),
        )
    }

    fn get(&self, key: &Key) -> (found: Vec<DataType>) {
        match self.find(key) {
            Some(i) => {
                proof {
                    self.found_at(i as int);
                }
                clone_values(&self.entries[i].1)
            },
            None => {
                let found: Vec<DataType> = Vec::new();
                assert(values(found@) =~= Seq::<Value>::empty());
                found
            },
        }
    }

    fn set(&mut self, key: Key, data: Vec<DataType>) {
        let ghost k0 = values(key@);
        let ghost d0 = values(data@);
        let at = self.find(&key);
        match at {
            Some(i) => {
                self.entries.set(i, (key, data));
            },
            None => {
                self.entries.push((key, data));
            },
        }
        proof {
            let n = old(self).entries@.len() as int;
            let slot = match at {
                Some(i) => i as int,
                None => n,
            };
            assert(self.key_at(slot) == k0);
            assert(values(self.entries@[slot].1@) == d0);
            assert forall|j: int| 0 <= j < n && j != slot implies self.key_at(j) == old(
                self,
            ).key_at(j) && self.entries@[j] == old(self).entries@[j] by {}
            assert(self.distinct()) by {
                assert forall|i: int, j: int| 0 <= i < j < self.entries@.len() implies self.key_at(
                    i,
                ) != self.key_at(j) by {
                    if at is Some {
                        assert(old(self).key_at(i) != old(self).key_at(j));
                    } else if j < n {
                        assert(old(self).key_at(i) != old(self).key_at(j));
                    } else {
                        assert(old(self).key_at(i) == self.key_at(i));
                    }
                }
            }
            let target = old(self).contents().insert(k0, d0);
            assert forall|k: Seq<Value>| self.contents().contains_key(k) implies #[trigger]
                target.contains_key(k) && self.contents()[k] == target[k] by {
                let j = self.position(k);
                self.found_at(j);
                if j != slot {
                    old(self).found_at(j);
                }
            }
            assert forall|k: Seq<Value>| #[trigger]
                target.contains_key(k) implies self.contents().contains_key(k) by {
                if k == k0 {
                    self.found_at(slot);
                } else {
                    let j = old(self).position(k);
                    assert(old(self).key_at(j) == k);
                    self.found_at(j);
                }
            }
            assert(self.contents() =~= target);
        }
    }
}

} // verus!
