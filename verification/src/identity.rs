//! Identities of participants, assets and ledger records.

use vstd::prelude::*;

verus! {

/// A 32-byte identity: a borrower, a lender, an asset type or the address of
/// a ledger record.
#[derive(Clone, Copy, Debug, Eq)]
pub struct Identity {
    pub bytes: [u8; 32],
}

impl PartialEq for Identity {
    /// Two identities are equal when all their bytes are.
    fn eq(&self, other: &Identity) -> (same: bool) {
        let mut i: usize = 0;
        while i < 32
            invariant
                i <= 32,
                forall|j: int| 0 <= j < i ==> self.bytes@[j] == other.bytes@[j],
            decreases 32 - i,
        {
            if self.bytes[i] != other.bytes[i] {
                return false;
            }
            i = i + 1;
        }
        assert(self.bytes =~= other.bytes);
        true
    }
}

impl vstd::std_specs::cmp::PartialEqSpecImpl for Identity {
    open spec fn obeys_eq_spec() -> bool {
        true
    }

    open spec fn eq_spec(&self, other: &Identity) -> bool {
        *self == *other
    }
}

impl Identity {
    /// The empty identity, every byte zero: the value of a field that has not
    /// been assigned.
    pub open spec fn empty() -> Identity {
        Identity {
            bytes: [
                0u8, 0u8, 0u8, 0u8, 0u8, 0u8, 0u8, 0u8,
                0u8, 0u8, 0u8, 0u8, 0u8, 0u8, 0u8, 0u8,
                0u8, 0u8, 0u8, 0u8, 0u8, 0u8, 0u8, 0u8,
                0u8, 0u8, 0u8, 0u8, 0u8, 0u8, 0u8, 0u8,
            ],
        }
    }

    /// Whether this is the empty identity.
    pub open spec fn is_empty(&self) -> bool {
        *self == Identity::empty()
    }

    /// Makes the identity with the given bytes.
    pub fn new(bytes: [u8; 32]) -> (id: Identity)
        ensures
            id.bytes == bytes,
    {
        Identity { bytes }
    }

    /// Tells whether this is the empty identity.
    pub fn is_unset(&self) -> (unset: bool)
        ensures
            unset == self.is_empty(),
    {
        let mut i: usize = 0;
        while i < 32
            invariant
                i <= 32,
                forall|j: int| 0 <= j < i ==> self.bytes@[j] == 0,
            decreases 32 - i,
        {
            if self.bytes[i] != 0 {
                return false;
            }
            i = i + 1;
        }
        assert(self.bytes =~= Identity::empty().bytes);
        true
    }
}

impl Default for Identity {
    /// The empty identity.
    fn default() -> (id: Identity)
        ensures
            id == Identity::empty(),
    {
        let id = Identity { bytes: [0u8; 32] };
        assert(id.bytes =~= Identity::empty().bytes);
        id
    }
}

} // verus!
