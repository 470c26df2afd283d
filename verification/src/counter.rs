//! The counter of successful registrations.

use vstd::prelude::*;

verus! {

/// Counts the fingerprints that were registered. It only ever grows, by one
/// at a time.
pub struct DocumentCounter {
    value: u64,
}

impl View for DocumentCounter {
    type V = nat;

    closed spec fn view(&self) -> nat {
        self.value as nat
    }
}

impl DocumentCounter {
    /// The counter at zero.
    pub fn new() -> (counter: DocumentCounter)
        ensures
            counter@ == 0,
    {
        DocumentCounter { value: 0 }
    }

    /// Adds exactly one.
    pub fn increment(&mut self)
        requires
            old(self)@ < u64::MAX,
        ensures
            final(self)@ == old(self)@ + 1,
    {
        self.value = self.value + 1;
    }

    /// The current count.
    pub fn value(&self) -> (count: u64)
        ensures
            count == self@,
    {
        self.value
    }
}

} // verus!
