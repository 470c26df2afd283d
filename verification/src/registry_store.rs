//! The store that maps each registered fingerprint to its record.

use vstd::prelude::*;
use vstd::slice::slice_to_vec;
use crate::bytes::bytes_equal;
use crate::document::DocumentInfo;

verus! {

/// One fingerprint with its record.
struct Entry {
    fingerprint: Vec<u8>,
    info: DocumentInfo,
}

/// Maps fingerprints to records. A fingerprint that was put stays; a second
/// `put` of the same fingerprint replaces its record.
pub struct RegistryStore {
    entries: Vec<Entry>,
}

impl View for RegistryStore {
    type V = Map<Seq<u8>, DocumentInfo>;

    closed spec fn view(&self) -> Map<Seq<u8>, DocumentInfo> {
        Map::new(
            |k: Seq<u8>| self.keys().contains(k),
            |k: Seq<u8>| self.entries@[self.keys().index_of(k)].info,
        )
    }
}

impl RegistryStore {
    /// The stored fingerprints, in the order in which they were first put.
    spec fn keys(self) -> Seq<Seq<u8>> {
        Seq::new(self.entries@.len(), |i: int| self.entries@[i].fingerprint@)
    }

    /// No fingerprint is stored twice.
    pub closed spec fn wf(self) -> bool {
        self.keys().no_duplicates()
    }

    /// The entry at position `i` is what the map holds for its fingerprint.
    proof fn lemma_entry(self, i: int)
        requires
            self.wf(),
            0 <= i < self.entries@.len(),
        ensures
            self@.dom().contains(self.keys()[i]),
            self@[self.keys()[i]] == self.entries@[i].info,
    {
        let k = self.keys()[i];
        assert(self.keys().contains(k));
        assert(self.keys().index_of(k) == i);
    }

    /// The store holds finitely many records, no more than fit in memory.
    pub proof fn lemma_size(self)
        requires
            self.wf(),
        ensures
            self@.dom().finite(),
            self@.dom().len() <= usize::MAX,
    {
        assert(self.keys().len() == self.entries.len());
        vstd::seq_lib::seq_to_set_is_finite(self.keys());
        self.keys().unique_seq_to_set();
    }

    /// The empty store.
    pub fn new() -> (store: RegistryStore)
        ensures
            store.wf(),
            store@ == Map::<Seq<u8>, DocumentInfo>::empty(),
    {
        RegistryStore { entries: Vec::new() }
    }

    /// The position of a fingerprint among the entries, if it is stored.
    fn find(&self, fingerprint: &[u8]) -> (found: Option<usize>)
        ensures
            match found {
                Some(i) => i < self.entries@.len() && self.keys()[i as int] == fingerprint@,
                None => !self.keys().contains(fingerprint@),
            },
    {
        let mut i: usize = 0;
        while i < self.entries.len()
            invariant
                i <= self.entries@.len(),
                forall|j: int| 0 <= j < i ==> self.keys()[j] != fingerprint@,
            decreases self.entries@.len() - i,
        {
            if bytes_equal(self.entries[i].fingerprint.as_slice(), fingerprint) {
                return Some(i);
            }
            i += 1;
        }
        None
    }

    /// Whether the fingerprint has a record.
    pub fn contains(&self, fingerprint: &[u8]) -> (present: bool)
        requires
            self.wf(),
        ensures
            present == self@.dom().contains(fingerprint@),
    {
        self.find(fingerprint).is_some()
    }

    /// The record of the fingerprint, if it has one.
    pub fn get(&self, fingerprint: &[u8]) -> (record: Option<DocumentInfo>)
        requires
            self.wf(),
        ensures
            record == (if self@.dom().contains(fingerprint@) {
                Some(self@[fingerprint@])
            } else {
                None
            }),
    {
        match self.find(fingerprint) {
            Some(i) => {
                proof {
                    self.lemma_entry(i as int);
                }
                Some(self.entries[i].info)
            },
            None => None,
        }
    }

    /// Stores `info` as the record of the fingerprint, in place of the
    /// record it had, if any.
    pub fn put(&mut self, fingerprint: &[u8], info: DocumentInfo)
        requires
            old(self).wf(),
        ensures
            final(self).wf(),
            final(self)@ == old(self)@.insert(fingerprint@, info),
    {
        match self.find(fingerprint) {
            Some(i) => {
                self.entries[i].info = info;
                proof {
                    assert(self.keys() =~= old(self).keys());
                    let after = old(self)@.insert(fingerprint@, info);
                    assert forall|k: Seq<u8>| self@.dom().contains(k) implies #[trigger] self@[k]
                        == after[k] by {
                        old(self).lemma_entry(self.keys().index_of(k));
                    }
                }
            },
            None => {
                self.entries.push(Entry { fingerprint: slice_to_vec(fingerprint), info });
                proof {
                    let n = old(self).entries@.len() as int;
                    assert(self.keys() =~= old(self).keys().push(fingerprint@));
                    assert(self.keys()[n] == fingerprint@);
                    assert forall|k: Seq<u8>|
                        old(self).keys().contains(k) implies self.keys().contains(k) by {
                        assert(self.keys()[old(self).keys().index_of(k)] == k);
                    }
                    let before = old(self).keys();
                    assert forall|k: Seq<u8>|
                        self.keys().contains(k) && k != fingerprint@ implies before.contains(k) by {
                        assert(old(self).keys()[self.keys().index_of(k)] == k);
                    }
                    let after = old(self)@.insert(fingerprint@, info);
                    assert forall|k: Seq<u8>| self@.dom().contains(k) implies #[trigger] self@[k]
                        == after[k] by {
                        let j = self.keys().index_of(k);
                        self.lemma_entry(j);
                        if j < n {
                            old(self).lemma_entry(j);
                        }
                    }
                }
            },
        }
    }
}

} // verus!
