//! The trust store: which certificate each paired device presented.
//!
//! The store is the single source of truth for certificate validation. It is
//! a plain value handed to whoever needs it, never ambient state, and holds
//! at most one fingerprint per device id.

use vstd::prelude::*;
use crate::text::str_eq;

verus! {

/// One remembered pairing.
#[derive(Debug, Clone, PartialEq, Eq)]
pub struct TrustEntry {
    pub device_id: String,
    pub fingerprint: String,
}

/// Device id to certificate fingerprint, for every device paired so far.
#[derive(Debug)]
pub struct TrustStore {
    entries: Vec<TrustEntry>,
}

impl View for TrustStore {
    type V = Map<Seq<char>, Seq<char>>;

    closed spec fn view(&self) -> Map<Seq<char>, Seq<char>> {
        Map::new(
            |id: Seq<char>| self.holds(id),
            |id: Seq<char>| self.entries[self.slot(id)].fingerprint@,
        )
    }
}

impl TrustStore {
    #[verifier::type_invariant]
    spec fn distinct_ids(self) -> bool {
        forall|i: int, j: int|
            0 <= i < j < self.entries.len() ==> self.entries[i].device_id@
                != self.entries[j].device_id@
    }

    spec fn holds(self, id: Seq<char>) -> bool {
        exists|i: int| 0 <= i < self.entries.len() && self.entries[i].device_id@ == id
    }

    spec fn slot(self, id: Seq<char>) -> int {
        choose|i: int| 0 <= i < self.entries.len() && self.entries[i].device_id@ == id
    }

    proof fn lemma_entry(self, i: int)
        requires
            self.distinct_ids(),
            0 <= i < self.entries.len(),
        ensures
            self@.contains_key(self.entries[i].device_id@),
            self@[self.entries[i].device_id@] == self.entries[i].fingerprint@,
    {
        let id = self.entries[i].device_id@;
        assert(self.holds(id));
        assert(self.slot(id) == i);
    }

    proof fn lemma_absent(self, id: Seq<char>)
        requires
            forall|i: int| 0 <= i < self.entries.len() ==> self.entries[i].device_id@ != id,
        ensures
            !self@.contains_key(id),
    {
    }

    /// A store that trusts nobody.
    pub fn new() -> (store: TrustStore)
        ensures
            store@ == Map::<Seq<char>, Seq<char>>::empty(),
    {
        let store = TrustStore { entries: Vec::new() };
        assert(store@ =~= Map::<Seq<char>, Seq<char>>::empty());
        store
    }

    fn position(&self, device_id: &str) -> (r: Option<usize>)
        ensures
            match r {
                Some(i) => i < self.entries.len() && self.entries[i as int].device_id@
                    == device_id@,
                None => forall|i: int|
                    0 <= i < self.entries.len() ==> self.entries[i].device_id@ != device_id@,
            },
    {
        let mut i: usize = 0;
        while i < self.entries.len()
            invariant
                i <= self.entries.len(),
                forall|k: int| 0 <= k < i ==> self.entries[k].device_id@ != device_id@,
            decreases self.entries.len() - i,
        {
            if str_eq(self.entries[i].device_id.as_str(), device_id) {
                return Some(i);
            }
            i += 1;
        }
        None
    }

    /// How many devices are trusted.
    pub fn len(&self) -> (n: usize)
        ensures
            n == self@.dom().len(),
            self@.dom().finite(),
    {
        proof {
            use_type_invariant(self);
            self.lemma_domain_size(self.entries.len() as int);
            assert(self.ids_below(self.entries.len() as int) =~= self@.dom());
        }
        self.entries.len()
    }

    spec fn ids_below(self, n: int) -> Set<Seq<char>> {
        Set::new(|id: Seq<char>| exists|i: int| 0 <= i < n && self.entries[i].device_id@ == id)
    }

    proof fn lemma_domain_size(self, n: int)
        requires
            self.distinct_ids(),
            0 <= n <= self.entries.len(),
        ensures
            self.ids_below(n).finite(),
            self.ids_below(n).len() == n,
        decreases n,
    {
        if n == 0 {
            assert(self.ids_below(0) =~= Set::<Seq<char>>::empty());
        } else {
            self.lemma_domain_size(n - 1);
            let id = self.entries[n - 1].device_id@;
            assert(!self.ids_below(n - 1).contains(id));
            assert(self.ids_below(n) =~= self.ids_below(n - 1).insert(id));
        }
    }

    /// Whether any fingerprint is on record for the device.
    pub fn contains(&self, device_id: &str) -> (r: bool)
        ensures
            r == self@.contains_key(device_id@),
    {
        proof {
            use_type_invariant(self);
        }
        match self.position(device_id) {
            Some(i) => {
                proof {
                    self.lemma_entry(i as int);
                }
                true
            },
            None => {
                proof {
                    self.lemma_absent(device_id@);
                }
                false
            },
        }
    }

    /// The fingerprint on record for the device, if there is one.
    pub fn fingerprint_of(&self, device_id: &str) -> (r: Option<String>)
        ensures
            match r {
                Some(f) => self@.contains_key(device_id@) && self@[device_id@] == f@,
                None => !self@.contains_key(device_id@),
            },
    {
        proof {
            use_type_invariant(self);
        }
        match self.position(device_id) {
            Some(i) => {
                proof {
                    self.lemma_entry(i as int);
                }
                Some(self.entries[i].fingerprint.clone())
            },
            None => {
                proof {
                    self.lemma_absent(device_id@);
                }
                None
            },
        }
    }

    /// Whether `fingerprint` is the one on record for the device.
    ///
    /// A device without a record is not trusted, whatever it presents.
    pub fn is_trusted(&self, device_id: &str, fingerprint: &str) -> (r: bool)
        ensures
            r == (self@.contains_key(device_id@) && self@[device_id@] == fingerprint@),
    {
        proof {
            use_type_invariant(self);
        }
        match self.position(device_id) {
            Some(i) => {
                proof {
                    self.lemma_entry(i as int);
                }
                str_eq(self.entries[i].fingerprint.as_str(), fingerprint)
            },
            None => {
                proof {
                    self.lemma_absent(device_id@);
                }
                false
            },
        }
    }

    /// Records `fingerprint` for the device, replacing an earlier record.
    pub fn record(&mut self, device_id: &str, fingerprint: &str)
        ensures
            final(self)@ == old(self)@.insert(device_id@, fingerprint@),
    {
        proof {
            use_type_invariant(&*self);
        }
        let ghost before = *self;
        let entry = TrustEntry {
            device_id: device_id.to_owned(),
            fingerprint: fingerprint.to_owned(),
        };
        let found = self.position(device_id);
        let mut entries: Vec<TrustEntry> = Vec::new();
        core::mem::swap(&mut self.entries, &mut entries);
        match found {
            Some(i) => {
                entries.set(i, entry);
                self.entries = entries;
                proof {
                    let after = *self;
                    assert forall|k: int| 0 <= k < after.entries.len() implies after.entries[k].device_id@
                        == before.entries[k].device_id@ by {}
                    assert(after.distinct_ids());
                    assert forall|id: Seq<char>|
                        after@.contains_key(id) <==> before@.insert(
                            device_id@,
                            fingerprint@,
                        ).contains_key(id) by {
                        if before.holds(id) {
                            let k = before.slot(id);
                            assert(after.entries[k].device_id@ == id);
                        }
                        if after.holds(id) {
                            let k = after.slot(id);
                            assert(before.entries[k].device_id@ == id);
                        }
                        assert(after.entries[i as int].device_id@ == device_id@);
                    }
                    assert forall|id: Seq<char>| after@.contains_key(id) implies after@[id]
                        == before@.insert(device_id@, fingerprint@)[id] by {
                        let k = after.slot(id);
                        after.lemma_entry(k);
                        before.lemma_entry(k);
                    }
                    assert(after@ =~= before@.insert(device_id@, fingerprint@));
                }
            },
            None => {
                entries.push(entry);
                self.entries = entries;
                proof {
                    let after = *self;
                    let n = before.entries.len() as int;
                    assert forall|k: int| 0 <= k < n implies after.entries[k]
                        == before.entries[k] by {}
                    assert(after.entries[n].device_id@ == device_id@);
                    assert(after.distinct_ids());
                    assert forall|id: Seq<char>|
                        after@.contains_key(id) <==> before@.insert(
                            device_id@,
                            fingerprint@,
                        ).contains_key(id) by {
                        if before.holds(id) {
                            let k = before.slot(id);
                            assert(after.entries[k].device_id@ == id);
                        }
                        if after.holds(id) {
                            let k = after.slot(id);
                            if k < n {
                                assert(before.entries[k].device_id@ == id);
                            }
                        }
                        assert(after.entries[n].device_id@ == device_id@);
                    }
                    assert forall|id: Seq<char>| after@.contains_key(id) implies after@[id]
                        == before@.insert(device_id@, fingerprint@)[id] by {
                        let k = after.slot(id);
                        after.lemma_entry(k);
                        if k < n {
                            before.lemma_entry(k);
                        }
                    }
                    assert(after@ =~= before@.insert(device_id@, fingerprint@));
                }
            },
        }
    }

    /// Drops the record for the device; says whether there was one.
    pub fn forget(&mut self, device_id: &str) -> (r: bool)
        ensures
            final(self)@ == old(self)@.remove(device_id@),
            r == old(self)@.contains_key(device_id@),
    {
        proof {
            use_type_invariant(&*self);
        }
        let ghost before = *self;
        let found = self.position(device_id);
        match found {
            Some(i) => {
                let mut entries: Vec<TrustEntry> = Vec::new();
                core::mem::swap(&mut self.entries, &mut entries);
                entries.remove(i);
                self.entries = entries;
                proof {
                    let after = *self;
                    before.lemma_entry(i as int);
                    assert forall|k: int| 0 <= k < after.entries.len() implies after.entries[k]
                        == before.entries[if k < i { k } else { k + 1 }] by {}
                    assert(after.distinct_ids()) by {
                        assert forall|a: int, b: int|
                            0 <= a < b < after.entries.len() implies after.entries[a].device_id@
                            != after.entries[b].device_id@ by {
                            let a2 = if a < i { a } else { a + 1 };
                            let b2 = if b < i { b } else { b + 1 };
                            assert(after.entries[a] == before.entries[a2]);
                            assert(after.entries[b] == before.entries[b2]);
                        }
                    }
                    assert forall|id: Seq<char>|
                        after@.contains_key(id) <==> before@.remove(device_id@).contains_key(
                            id,
                        ) by {
                        if before.holds(id) && id != device_id@ {
                            let k = before.slot(id);
                            let k2 = if k < i { k } else { k - 1 };
                            assert(after.entries[k2] == before.entries[k]);
                        }
                        if after.holds(id) {
                            let k = after.slot(id);
                            let k2 = if k < i { k } else { k + 1 };
                            assert(after.entries[k] == before.entries[k2]);
                        }
                    }
                    assert forall|id: Seq<char>| after@.contains_key(id) implies after@[id]
                        == before@.remove(device_id@)[id] by {
                        let k = after.slot(id);
                        let k2 = if k < i { k } else { k + 1 };
                        assert(after.entries[k] == before.entries[k2]);
                        after.lemma_entry(k);
                        before.lemma_entry(k2);
                    }
                    assert(after@ =~= before@.remove(device_id@));
                }
                true
            },
            None => {
                proof {
                    self.lemma_absent(device_id@);
                    assert(self@ =~= self@.remove(device_id@));
                }
                false
            },
        }
    }

    /// Every record, for the caller to persist.
    pub fn entries(&self) -> (list: Vec<TrustEntry>)
        ensures
            list.len() == self@.dom().len(),
            forall|i: int|
                0 <= i < list.len() ==> self@.contains_key(#[trigger] list[i].device_id@)
                    && self@[list[i].device_id@] == list[i].fingerprint@,
            forall|i: int, j: int|
                0 <= i < j < list.len() ==> list[i].device_id@ != list[j].device_id@,
    {
        proof {
            use_type_invariant(self);
            self.lemma_domain_size(self.entries.len() as int);
            assert(self.ids_below(self.entries.len() as int) =~= self@.dom());
        }
        let mut list: Vec<TrustEntry> = Vec::new();
        let mut i: usize = 0;
        while i < self.entries.len()
            invariant
                i <= self.entries.len(),
                list.len() == i,
                forall|k: int|
                    0 <= k < i ==> list[k].device_id@ == self.entries[k].device_id@
                        && list[k].fingerprint@ == self.entries[k].fingerprint@,
            decreases self.entries.len() - i,
        {
            list.push(
                TrustEntry {
                    device_id: self.entries[i].device_id.clone(),
                    fingerprint: self.entries[i].fingerprint.clone(),
                },
            );
            i += 1;
        }
        proof {
            assert forall|k: int| 0 <= k < list.len() implies self@.contains_key(
                #[trigger] list[k].device_id@,
            ) && self@[list[k].device_id@] == list[k].fingerprint@ by {
                self.lemma_entry(k);
            }
        }
        list
    }

    /// The store that results from recording the given entries in order, a
    /// later entry for a device replacing an earlier one.
    pub fn from_entries(list: &Vec<TrustEntry>) -> (store: TrustStore)
        ensures
            store@ == recorded(list@, list.len() as int),
    {
        let mut store = TrustStore::new();
        let mut i: usize = 0;
        while i < list.len()
            invariant
                i <= list.len(),
                store@ == recorded(list@, i as int),
            decreases list.len() - i,
        {
            store.record(list[i].device_id.as_str(), list[i].fingerprint.as_str());
            i += 1;
        }
        store
    }
}

/// The map built by recording the first `n` entries of `list` in order.
pub open spec fn recorded(list: Seq<TrustEntry>, n: int) -> Map<Seq<char>, Seq<char>>
    decreases n,
{
    if n <= 0 {
        Map::empty()
    } else {
        recorded(list, n - 1).insert(list[n - 1].device_id@, list[n - 1].fingerprint@)
    }
}

} // verus!
