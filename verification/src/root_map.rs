use vstd::prelude::*;
use crate::primitives::Root;

verus! {

/// An association from roots to values in which every root occurs once.
///
/// The entries are kept in the order in which their roots first came in.
pub struct RootMap<V> {
    entries: Vec<(Root, V)>,
}

impl<V> RootMap<V> {
    #[verifier::type_invariant]
    spec fn distinct(&self) -> bool {
        forall|i: int, j: int|
            0 <= i < j < self.entries@.len() ==> self.entries@[i].0 != self.entries@[j].0
    }

    /// The roots in the order in which they first came in.
    spec fn keys(&self) -> Seq<Root> {
        Seq::new(self.entries@.len(), |i: int| self.entries@[i].0)
    }

    /// The association as a mathematical map.
    pub closed spec fn map(&self) -> Map<Root, V> {
        Map::new(
            |k: Root| exists|i: int| 0 <= i < self.entries@.len() && self.entries@[i].0 == k,
            |k: Root|
                self.entries@[choose|i: int| 0 <= i < self.entries@.len() && self.entries@[i].0 == k].1,
        )
    }

    proof fn lemma_keys_are_the_domain(&self)
        ensures
            self.keys().to_set() == self.map().dom(),
    {
        assert forall|k: Root| self.keys().to_set().contains(k) implies self.map().dom().contains(
            k,
        ) by {
            let i = choose|i: int| 0 <= i < self.keys().len() && self.keys()[i] == k;
            assert(self.entries@[i].0 == k);
        }
        assert forall|k: Root| self.map().dom().contains(k) implies self.keys().to_set().contains(
            k,
        ) by {
            let i = choose|i: int| 0 <= i < self.entries@.len() && self.entries@[i].0 == k;
            assert(self.keys()[i] == k);
        }
        assert(self.keys().to_set() =~= self.map().dom());
    }

    /// The association binds finitely many roots.
    pub proof fn lemma_finite(&self)
        ensures
            self.map().dom().finite(),
    {
        vstd::seq_lib::seq_to_set_is_finite(self.keys());
        self.lemma_keys_are_the_domain();
    }

    pub fn new() -> (empty: RootMap<V>)
        ensures
            empty.map() == Map::<Root, V>::empty(),
    {
        let empty = RootMap { entries: Vec::new() };
        assert(empty.map() =~= Map::<Root, V>::empty());
        empty
    }

    /// The number of roots bound.
    pub fn len(&self) -> (n: usize)
        ensures
            n == self.map().dom().len(),
            self.map().dom().finite(),
    {
        proof {
            use_type_invariant(self);
            self.lemma_finite();
            self.lemma_keys_are_the_domain();
            self.keys().unique_seq_to_set();
        }
        self.entries.len()
    }

    fn position(&self, key: &Root) -> (at: Option<usize>)
        ensures
            match at {
                Some(i) => i < self.entries@.len() && self.entries@[i as int].0 == *key,
                None => forall|j: int| 0 <= j < self.entries@.len() ==> self.entries@[j].0 != *key,
            },
    {
        let mut i: usize = 0;
        while i < self.entries.len()
            invariant
                i <= self.entries@.len(),
                forall|j: int| 0 <= j < i ==> self.entries@[j].0 != *key,
            decreases self.entries@.len() - i,
        {
            if self.entries[i].0 == *key {
                return Some(i);
            }
            i += 1;
        }
        None
    }

    pub fn get(&self, key: &Root) -> (value: Option<&V>)
        ensures
            match value {
                Some(v) => self.map().contains_key(*key) && *v == self.map()[*key],
                None => !self.map().contains_key(*key),
            },
    {
        proof {
            use_type_invariant(self);
        }
        match self.position(key) {
            Some(i) => {
                proof {
                    let j = choose|j: int| 0 <= j < self.entries@.len() && self.entries@[j].0 == *key;
                    assert(j == i);
                }
                Some(&self.entries[i].1)
            },
            None => None,
        }
    }

    pub fn contains_key(&self, key: &Root) -> (present: bool)
        ensures
            present == self.map().contains_key(*key),
    {
        self.position(key).is_some()
    }

    /// Binds `key` to `value`, in place of the value it was bound to if any.
    pub fn insert(&mut self, key: Root, value: V)
        ensures
            final(self).map() == old(self).map().insert(key, value),
    {
        proof {
            use_type_invariant(&*self);
        }
        let at = self.position(&key);
        let mut taken = RootMap { entries: Vec::new() };
        core::mem::swap(self, &mut taken);
        let mut entries = taken.entries;
        let ghost place: int;
        match at {
            Some(i) => {
                entries[i] = (key, value);
                proof {
                    place = i as int;
                }
            },
            None => {
                entries.push((key, value));
                proof {
                    place = entries@.len() - 1;
                }
            },
        }
        *self = RootMap { entries };
        assert(self.entries@[place].0 == key);
        proof {
            let a = self.map();
            let b = old(self).map().insert(key, value);
            assert forall|k: Root| a.contains_key(k) <==> b.contains_key(k) by {
                if a.contains_key(k) {
                    let i = choose|i: int| 0 <= i < self.entries@.len() && self.entries@[i].0 == k;
                    if k != key {
                        assert(old(self).entries@[i].0 == k);
                    }
                }
                if b.contains_key(k) {
                    if k != key {
                        let i = choose|i: int|
                            0 <= i < old(self).entries@.len() && old(self).entries@[i].0 == k;
                        assert(self.entries@[i].0 == k);
                    } else {
                        assert(self.entries@[place].0 == k);
                    }
                }
            }
            assert forall|k: Root| a.contains_key(k) implies a[k] == b[k] by {
                let i = choose|i: int| 0 <= i < self.entries@.len() && self.entries@[i].0 == k;
                if k != key {
                    let j = choose|j: int|
                        0 <= j < old(self).entries@.len() && old(self).entries@[j].0 == k;
                    assert(old(self).entries@[i].0 == k);
                    assert(i == j);
                }
            }
            assert(a =~= b);
        }
    }
}

} // verus!
