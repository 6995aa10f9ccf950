//! A small map keyed by strings, kept in insertion order.
//!
//! The maps of this crate are keyed by ids and names and hold a handful of
//! entries, so a vector with distinct keys serves: lookups are linear, the
//! order of the entries is the order in which their keys first arrived, and
//! every operation is specified against the mathematical map it stands for.

use vstd::prelude::*;
use crate::text::str_eq;

verus! {

/// A map from strings to `V`.
#[derive(Debug)]
pub struct StringMap<V> {
    entries: Vec<Entry<V>>,
}

#[derive(Debug)]
struct Entry<V> {
    key: String,
    value: V,
}

/// `order` with every occurrence of `key` taken out.
pub open spec fn without(order: Seq<Seq<char>>, key: Seq<char>) -> Seq<Seq<char>> {
    order.filter(|k: Seq<char>| k != key)
}

impl<V> View for StringMap<V> {
    type V = Map<Seq<char>, V>;

    closed spec fn view(&self) -> Map<Seq<char>, V> {
        Map::new(|key: Seq<char>| self.holds(key), |key: Seq<char>| self.entries[self.slot(key)].value)
    }
}

impl<V> StringMap<V> {
    #[verifier::type_invariant]
    spec fn well_formed(self) -> bool {
        forall|i: int, j: int|
            0 <= i < j < self.entries.len() ==> self.entries[i].key@ != self.entries[j].key@
    }

    spec fn holds(self, key: Seq<char>) -> bool {
        exists|i: int| 0 <= i < self.entries.len() && self.entries[i].key@ == key
    }

    spec fn slot(self, key: Seq<char>) -> int {
        choose|i: int| 0 <= i < self.entries.len() && self.entries[i].key@ == key
    }

    /// The keys, in the order in which they were first inserted.
    pub closed spec fn order(&self) -> Seq<Seq<char>> {
        self.entries@.map_values(|e: Entry<V>| e.key@)
    }

    proof fn lemma_entry(self, i: int)
        requires
            self.well_formed(),
            0 <= i < self.entries.len(),
        ensures
            self@.contains_key(self.entries[i].key@),
            self@[self.entries[i].key@] == self.entries[i].value,
            self.order()[i] == self.entries[i].key@,
    {
        let key = self.entries[i].key@;
        assert(self.holds(key));
        assert(self.slot(key) == i);
    }

    proof fn lemma_absent(self, key: Seq<char>)
        requires
            forall|i: int| 0 <= i < self.entries.len() ==> self.entries[i].key@ != key,
        ensures
            !self@.contains_key(key),
    {
    }

    proof fn lemma_order(self)
        requires
            self.well_formed(),
        ensures
            self.order().no_duplicates(),
            forall|key: Seq<char>| self.order().contains(key) <==> self@.contains_key(key),
    {
        assert forall|key: Seq<char>| self.order().contains(key) <==> self@.contains_key(key) by {
            if self.order().contains(key) {
                let i = choose|i: int| 0 <= i < self.order().len() && self.order()[i] == key;
                assert(self.entries[i].key@ == key);
            }
            if self.holds(key) {
                let i = self.slot(key);
                assert(self.order()[i] == key);
            }
        }
    }

    /// An empty map.
    pub fn new() -> (map: StringMap<V>)
        ensures
            map@ == Map::<Seq<char>, V>::empty(),
            map.order() == Seq::<Seq<char>>::empty(),
    {
        let map = StringMap { entries: Vec::new() };
        assert(map@ =~= Map::<Seq<char>, V>::empty());
        assert(map.order() =~= Seq::<Seq<char>>::empty());
        map
    }

    /// Where a key sits in the order, if the map holds it.
    pub fn position(&self, key: &str) -> (r: Option<usize>)
        ensures
            match r {
                Some(i) => i < self.order().len() && self.order()[i as int] == key@
                    && self@.contains_key(key@),
                None => !self@.contains_key(key@),
            },
    {
        proof {
            use_type_invariant(self);
        }
        let mut i: usize = 0;
        while i < self.entries.len()
            invariant
                self.well_formed(),
                i <= self.entries.len(),
                forall|k: int| 0 <= k < i ==> self.entries[k].key@ != key@,
            decreases self.entries.len() - i,
        {
            if str_eq(self.entries[i].key.as_str(), key) {
                proof {
                    self.lemma_entry(i as int);
                }
                return Some(i);
            }
            i += 1;
        }
        proof {
            self.lemma_absent(key@);
        }
        None
    }

    /// How many entries the map holds. The order lists every key of the map
    /// exactly once, so its length is the number of keys.
    pub fn len(&self) -> (n: usize)
        ensures
            n == self.order().len(),
            self.order().no_duplicates(),
            forall|key: Seq<char>| self.order().contains(key) <==> self@.contains_key(key),
    {
        proof {
            use_type_invariant(self);
            self.lemma_order();
        }
        self.entries.len()
    }

    /// The key at a position of the order.
    pub fn key_at(&self, i: usize) -> (r: &str)
        requires
            i < self.order().len(),
        ensures
            r@ == self.order()[i as int],
            self@.contains_key(r@),
    {
        proof {
            use_type_invariant(self);
            self.lemma_entry(i as int);
        }
        self.entries[i].key.as_str()
    }

    /// The value at a position of the order.
    pub fn value_at(&self, i: usize) -> (r: &V)
        requires
            i < self.order().len(),
        ensures
            self@.contains_key(self.order()[i as int]),
            *r == self@[self.order()[i as int]],
    {
        proof {
            use_type_invariant(self);
            self.lemma_entry(i as int);
        }
        &self.entries[i].value
    }

    /// Whether the map holds the key.
    pub fn contains_key(&self, key: &str) -> (r: bool)
        ensures
            r == self@.contains_key(key@),
    {
        self.position(key).is_some()
    }

    /// The value stored under a key.
    pub fn get(&self, key: &str) -> (r: Option<&V>)
        ensures
            match r {
                Some(value) => self@.contains_key(key@) && *value == self@[key@],
                None => !self@.contains_key(key@),
            },
    {
        proof {
            use_type_invariant(self);
        }
        match self.position(key) {
            Some(i) => {
                proof {
                    self.lemma_entry(i as int);
                }
                Some(&self.entries[i].value)
            },
            None => None,
        }
    }

    /// Stores `value` under `key`. A new key goes to the end of the order; a
    /// key already held keeps its place and gets the new value.
    pub fn insert(&mut self, key: &str, value: V)
        ensures
            final(self)@ == old(self)@.insert(key@, value),
            final(self).order() == if old(self)@.contains_key(key@) {
                old(self).order()
            } else {
                old(self).order().push(key@)
            },
    {
        proof {
            use_type_invariant(&*self);
        }
        let ghost before = *self;
        let found = self.position(key);
        let mut entries: Vec<Entry<V>> = Vec::new();
        core::mem::swap(&mut self.entries, &mut entries);
        match found {
            Some(i) => {
                entries.set(i, Entry { key: key.to_owned(), value });
            },
            None => {
                entries.push(Entry { key: key.to_owned(), value });
            },
        }
        self.entries = entries;
        proof {
            let after = *self;
            let n = before.entries.len() as int;
            assert forall|k: int| 0 <= k < n implies after.entries[k].key@
                == before.entries[k].key@ && (found != Some(k as usize) ==> after.entries[k]
                == before.entries[k]) by {}
            assert forall|id: Seq<char>|
                after@.contains_key(id) <==> before@.insert(key@, value).contains_key(id) by {
                if before.holds(id) {
                    let k = before.slot(id);
                    assert(after.entries[k].key@ == id);
                }
                if after.holds(id) {
                    let k = after.slot(id);
                    if k < n {
                        assert(before.entries[k].key@ == id);
                    }
                }
                if found is None {
                    assert(after.entries[n].key@ == key@);
                } else {
                    assert(after.entries[found->0 as int].key@ == key@);
                }
            }
            assert forall|id: Seq<char>| after@.contains_key(id) implies after@[id]
                == before@.insert(key@, value)[id] by {
                let k = after.slot(id);
                after.lemma_entry(k);
                if k < n {
                    before.lemma_entry(k);
                }
            }
            assert(after@ =~= before@.insert(key@, value));
            if found is None {
                assert(after.order() =~= before.order().push(key@));
            } else {
                assert(after.order() =~= before.order());
            }
        }
    }

    /// Removes a key and hands back what was stored under it.
    pub fn remove(&mut self, key: &str) -> (r: Option<V>)
        ensures
            final(self)@ == old(self)@.remove(key@),
            match r {
                Some(value) => old(self)@.contains_key(key@) && value == old(self)@[key@],
                None => !old(self)@.contains_key(key@),
            },
            final(self).order() == without(old(self).order(), key@),
    {
        proof {
            use_type_invariant(&*self);
        }
        let ghost before = *self;
        let found = self.position(key);
        match found {
            Some(i) => {
                let mut entries: Vec<Entry<V>> = Vec::new();
                core::mem::swap(&mut self.entries, &mut entries);
                let removed = entries.remove(i);
                self.entries = entries;
                let value = removed.value;
                proof {
                    let after = *self;
                    before.lemma_entry(i as int);
                    assert forall|k: int| 0 <= k < after.entries.len() implies after.entries[k]
                        == before.entries[if k < i { k } else { k + 1 }] by {}
                    assert forall|id: Seq<char>|
                        after@.contains_key(id) <==> before@.remove(key@).contains_key(id) by {
                        if before.holds(id) && id != key@ {
                            let k = before.slot(id);
                            let k2 = if k < i { k } else { k - 1 };
                            assert(after.entries[k2].key == before.entries[k].key);
                        }
                        if after.holds(id) {
                            let k = after.slot(id);
                            let k2 = if k < i { k } else { k + 1 };
                            assert(after.entries[k].key == before.entries[k2].key);
                        }
                    }
                    assert forall|id: Seq<char>| after@.contains_key(id) implies after@[id]
                        == before@.remove(key@)[id] by {
                        let k = after.slot(id);
                        let k2 = if k < i { k } else { k + 1 };
                        assert(after.entries[k].key == before.entries[k2].key);
                        after.lemma_entry(k);
                        before.lemma_entry(k2);
                    }
                    assert(after@ =~= before@.remove(key@));
                    assert forall|a: int, b: int|
                        0 <= a < b < before.order().len() implies before.order()[a]
                        != before.order()[b] by {
                        assert(before.entries[a].key@ != before.entries[b].key@);
                    }
                    Self::lemma_filter_one(before.order(), key@, i as int);
                    assert(after.order().len() == before.order().len() - 1);
                    assert forall|k: int| 0 <= k < after.order().len() implies after.order()[k]
                        == before.order().remove(i as int)[k] by {
                        assert(after.entries[k] == before.entries[if k < i { k } else { k + 1 }]);
                    }
                    assert(after.order() =~= before.order().remove(i as int));
                }
                Some(value)
            },
            None => {
                proof {
                    assert(self@ =~= self@.remove(key@));
                    assert forall|k: int| 0 <= k < self.order().len() implies self.order()[k]
                        != key@ by {
                        self.lemma_entry(k);
                    }
                    Self::lemma_filter_none(self.order(), key@);
                }
                None
            },
        }
    }

    proof fn lemma_filter_none(s: Seq<Seq<char>>, key: Seq<char>)
        requires
            forall|k: int| 0 <= k < s.len() ==> s[k] != key,
        ensures
            without(s, key) == s,
        decreases s.len(),
    {
        reveal(Seq::filter);
        if s.len() > 0 {
            Self::lemma_filter_none(s.drop_last(), key);
            assert(s.drop_last().push(s.last()) =~= s);
        }
    }

    proof fn lemma_filter_one(s: Seq<Seq<char>>, key: Seq<char>, i: int)
        requires
            0 <= i < s.len(),
            s[i] == key,
            forall|a: int, b: int| 0 <= a < b < s.len() ==> s[a] != s[b],
        ensures
            without(s, key) == s.remove(i),
        decreases s.len(),
    {
        reveal(Seq::filter);
        if i == s.len() - 1 {
            Self::lemma_filter_none(s.drop_last(), key);
            assert(s.remove(i) =~= s.drop_last());
        } else {
            Self::lemma_filter_one(s.drop_last(), key, i);
            assert(s.remove(i) =~= s.drop_last().remove(i).push(s.last()));
        }
    }
}

} // verus!
