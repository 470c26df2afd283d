//! Identities of the parties that talk to the registry.

use vstd::prelude::*;

verus! {

/// The identity of a calling party: 32 raw bytes.
#[derive(Clone, Copy, Debug)]
pub struct Address {
    bytes: [u8; 32],
}

impl View for Address {
    type V = Seq<u8>;

    closed spec fn view(&self) -> Seq<u8> {
        self.bytes@
    }
}

impl Address {
    /// The identity made of the given bytes.
    pub fn new(bytes: [u8; 32]) -> (address: Address)
        ensures
            address@ == bytes@,
    {
        Address { bytes }
    }

    /// The sentinel identity whose bytes are all zero.
    pub closed spec fn spec_zero() -> Address {
        Address { bytes: vstd::array::spec_array_fill_for_copy_type::<u8, 32>(0u8) }
    }

    /// The sentinel identity whose bytes are all zero.
    #[verifier::when_used_as_spec(spec_zero)]
    pub fn zero() -> (address: Address)
        ensures
            address == Address::spec_zero(),
            address@ == Seq::new(32, |i: int| 0u8),
    {
        proof {
            Address::lemma_zero();
        }
        Address { bytes: [0u8; 32] }
    }

    /// The sentinel identity is made of 32 zero bytes.
    pub proof fn lemma_zero()
        ensures
            Address::spec_zero()@ == Seq::new(32, |i: int| 0u8),
    {
    }

    /// The bytes of this identity.
    pub fn to_bytes(&self) -> (bytes: [u8; 32])
        ensures
            bytes@ == self@,
    {
        self.bytes
    }

    /// Every identity has exactly 32 bytes.
    pub proof fn lemma_len(self)
        ensures
            self@.len() == 32,
    {
    }

    /// Two identities with the same bytes are the same identity.
    pub proof fn lemma_ext_equal(self, other: Address)
        requires
            self@ == other@,
        ensures
            self == other,
    {
        assert(self.bytes =~= other.bytes);
    }
}

impl PartialEq for Address {
    fn eq(&self, other: &Address) -> (equal: bool)
    {
        let mut i: usize = 0;
        while i < 32
            invariant
                0 <= i <= 32,
                forall|j: int| 0 <= j < i ==> self.bytes[j] == other.bytes[j],
            decreases 32 - i,
        {
            if self.bytes[i] != other.bytes[i] {
                return false;
            }
            i += 1;
        }
        assert(self.bytes =~= other.bytes);
        true
    }
}

impl vstd::std_specs::cmp::PartialEqSpecImpl for Address {
    open spec fn obeys_eq_spec() -> bool {
        true
    }

    open spec fn eq_spec(&self, other: &Address) -> bool {
        *self == *other
    }
}

impl Eq for Address {}

} // verus!
