//! The index that lists, for each identity, the fingerprints it registered.

use vstd::prelude::*;
use vstd::slice::slice_to_vec;
use crate::address::Address;
use crate::bytes::bytes_equal;

verus! {

/// The fingerprints listed for `owner`, oldest first; none for an identity
/// that the index does not know.
pub open spec fn documents_of(index: Map<Address, Seq<Seq<u8>>>, owner: Address) -> Seq<Seq<u8>> {
    if index.dom().contains(owner) {
        index[owner]
    } else {
        Seq::empty()
    }
}

/// The index after `fingerprint` was added for `owner`: unchanged if it was
/// listed already, else with the fingerprint at the end of the owner's list.
pub open spec fn spec_add(
    index: Map<Address, Seq<Seq<u8>>>,
    owner: Address,
    fingerprint: Seq<u8>,
) -> Map<Address, Seq<Seq<u8>>> {
    if documents_of(index, owner).contains(fingerprint) {
        index
    } else {
        index.insert(owner, documents_of(index, owner).push(fingerprint))
    }
}

/// One identity with the fingerprints listed for it.
struct OwnerEntry {
    owner: Address,
    fingerprints: Vec<Vec<u8>>,
}

impl OwnerEntry {
    /// The listed fingerprints as byte sequences.
    spec fn listed(self) -> Seq<Seq<u8>> {
        Seq::new(self.fingerprints@.len(), |j: int| self.fingerprints@[j]@)
    }

    /// The position of a fingerprint in the list, if it is listed.
    fn find(&self, fingerprint: &[u8]) -> (found: Option<usize>)
        ensures
            match found {
                Some(j) => j < self.listed().len() && self.listed()[j as int] == fingerprint@,
                None => !self.listed().contains(fingerprint@),
            },
    {
        let mut j: usize = 0;
        while j < self.fingerprints.len()
            invariant
                j <= self.fingerprints@.len(),
                forall|k: int| 0 <= k < j ==> self.listed()[k] != fingerprint@,
            decreases self.fingerprints@.len() - j,
        {
            if bytes_equal(self.fingerprints[j].as_slice(), fingerprint) {
                return Some(j);
            }
            j += 1;
        }
        None
    }
}

/// For each identity, the fingerprints it registered. Entries are only ever
/// added.
pub struct OwnerIndex {
    entries: Vec<OwnerEntry>,
}

impl View for OwnerIndex {
    type V = Map<Address, Seq<Seq<u8>>>;

    closed spec fn view(&self) -> Map<Address, Seq<Seq<u8>>> {
        Map::new(
            |o: Address| self.owners().contains(o),
            |o: Address| self.entries@[self.owners().index_of(o)].listed(),
        )
    }
}

impl OwnerIndex {
    /// The identities that the index knows.
    spec fn owners(self) -> Seq<Address> {
        Seq::new(self.entries@.len(), |i: int| self.entries@[i].owner)
    }

    /// No identity has two entries, and no list names a fingerprint twice or
    /// is empty.
    pub closed spec fn wf(self) -> bool {
        &&& self.owners().no_duplicates()
        &&& forall|i: int|
            0 <= i < self.entries@.len() ==> {
                &&& (#[trigger] self.entries@[i]).listed().no_duplicates()
                &&& self.entries@[i].listed().len() > 0
            }
    }

    /// The entry at position `i` is what the map holds for its identity.
    proof fn lemma_entry(self, i: int)
        requires
            self.wf(),
            0 <= i < self.entries@.len(),
        ensures
            self@.dom().contains(self.owners()[i]),
            self@[self.owners()[i]] == self.entries@[i].listed(),
    {
        let o = self.owners()[i];
        assert(self.owners().contains(o));
        assert(self.owners().index_of(o) == i);
    }

    /// Every list of the index is a set: it names no fingerprint twice. An
    /// identity that the index knows has at least one fingerprint.
    pub proof fn lemma_lists(self, owner: Address)
        requires
            self.wf(),
        ensures
            documents_of(self@, owner).no_duplicates(),
            self@.dom().contains(owner) <==> documents_of(self@, owner).len() > 0,
    {
        if self@.dom().contains(owner) {
            self.lemma_entry(self.owners().index_of(owner));
        }
    }

    /// The empty index.
    pub fn new() -> (index: OwnerIndex)
        ensures
            index.wf(),
            index@ == Map::<Address, Seq<Seq<u8>>>::empty(),
    {
        OwnerIndex { entries: Vec::new() }
    }

    /// The position of an identity among the entries, if the index knows it.
    fn find(&self, owner: &Address) -> (found: Option<usize>)
        ensures
            match found {
                Some(i) => i < self.entries@.len() && self.owners()[i as int] == *owner,
                None => !self.owners().contains(*owner),
            },
    {
        let mut i: usize = 0;
        while i < self.entries.len()
            invariant
                i <= self.entries@.len(),
                forall|j: int| 0 <= j < i ==> self.owners()[j] != *owner,
            decreases self.entries@.len() - i,
        {
            if self.entries[i].owner == *owner {
                return Some(i);
            }
            i += 1;
        }
        None
    }

    /// Lists `fingerprint` for `owner`. Adding a fingerprint that the owner
    /// already has changes nothing.
    pub fn add(&mut self, owner: Address, fingerprint: &[u8])
        requires
            old(self).wf(),
        ensures
            final(self).wf(),
            final(self)@ == spec_add(old(self)@, owner, fingerprint@),
    {
        match self.find(&owner) {
            Some(i) => {
                if self.entries[i].find(fingerprint).is_none() {
                    self.entries[i].fingerprints.push(slice_to_vec(fingerprint));
                    proof {
                        old(self).lemma_entry(i as int);
                        assert(self.owners() =~= old(self).owners());
                        let before = old(self).entries@[i as int].listed();
                        assert(self.entries@[i as int].listed() =~= before.push(fingerprint@));
                        let after = spec_add(old(self)@, owner, fingerprint@);
                        assert forall|k: int| 0 <= k < self.entries@.len() && k != i implies (
                        #[trigger] self.entries@[k]) == old(self).entries@[k] by {}
                        assert forall|o: Address| self@.dom().contains(o) implies #[trigger] self@[o]
                            == after[o] by {
                            old(self).lemma_entry(self.owners().index_of(o));
                        }
                    }
                } else {
                    proof {
                        self.lemma_entry(i as int);
                    }
                }
            },
            None => {
                let mut fingerprints: Vec<Vec<u8>> = Vec::new();
                fingerprints.push(slice_to_vec(fingerprint));
                self.entries.push(OwnerEntry { owner, fingerprints });
                proof {
                    let n = old(self).entries@.len() as int;
                    assert(self.owners() =~= old(self).owners().push(owner));
                    assert(self.owners()[n] == owner);
                    assert(self.entries@[n].listed() =~= seq![fingerprint@]);
                    assert forall|k: int| 0 <= k < n implies #[trigger] self.entries@[k] == old(
                        self,
                    ).entries@[k] by {}
                    assert forall|o: Address|
                        old(self).owners().contains(o) implies self.owners().contains(o) by {
                        assert(self.owners()[old(self).owners().index_of(o)] == o);
                    }
                    assert forall|o: Address|
                        self.owners().contains(o) && o != owner implies old(self).owners().contains(
                        o,
                    ) by {
                        assert(old(self).owners()[self.owners().index_of(o)] == o);
                    }
                    let after = spec_add(old(self)@, owner, fingerprint@);
                    assert forall|o: Address| self@.dom().contains(o) implies #[trigger] self@[o]
                        == after[o] by {
                        let j = self.owners().index_of(o);
                        self.lemma_entry(j);
                        if j < n {
                            old(self).lemma_entry(j);
                        }
                    }
                }
            },
        }
    }

    /// The fingerprints listed for `owner`, oldest first.
    pub fn list(&self, owner: &Address) -> (fingerprints: Vec<Vec<u8>>)
        requires
            self.wf(),
        ensures
            fingerprints@.map_values(|f: Vec<u8>| f@) == documents_of(self@, *owner),
    {
        let mut fingerprints: Vec<Vec<u8>> = Vec::new();
        match self.find(owner) {
            Some(i) => {
                proof {
                    self.lemma_entry(i as int);
                }
                let entry = &self.entries[i];
                let mut j: usize = 0;
                while j < entry.fingerprints.len()
                    invariant
                        j <= entry.fingerprints@.len(),
                        fingerprints@.len() == j,
                        forall|k: int| 0 <= k < j ==> fingerprints@[k]@ == entry.listed()[k],
                    decreases entry.fingerprints@.len() - j,
                {
                    fingerprints.push(slice_to_vec(entry.fingerprints[j].as_slice()));
                    j += 1;
                }
            },
            None => {},
        }
        fingerprints
    }
}

} // verus!
