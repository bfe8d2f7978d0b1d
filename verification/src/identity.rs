//! Account identities: opaque 32-byte keys that are only ever compared.

use vstd::prelude::*;
use vstd::std_specs::cmp::PartialEqSpecImpl;

verus! {

/// The key of an account: a depositor, a borrower, a custodial account or a
/// deployed program.
#[derive(Clone, Copy, Debug)]
pub struct Identity {
    pub bytes: [u8; 32],
}

impl Identity {
    /// The all-zero key, which stands for "no account bound yet".
    pub open spec fn is_unset(self) -> bool {
        forall|i: int| 0 <= i < 32 ==> self.bytes[i] == 0u8
    }

    /// The all-zero key.
    pub open spec fn spec_unset() -> Identity {
        Identity { bytes: vstd::array::spec_array_fill_for_copy_type::<u8, 32>(0u8) }
    }

    /// The all-zero key.
    #[verifier::when_used_as_spec(spec_unset)]
    pub fn unset() -> (id: Identity)
        ensures
            id == Identity::spec_unset(),
            id.is_unset(),
    {
        Identity { bytes: [0u8; 32] }
    }

    /// Builds an identity from its 32 bytes.
    pub fn new(bytes: [u8; 32]) -> (id: Identity)
        ensures
            id.bytes == bytes,
    {
        Identity { bytes }
    }

    /// Whether this is the all-zero key.
    pub fn is_default(&self) -> (unset: bool)
        ensures
            unset == self.is_unset(),
    {
        let mut i: usize = 0;
        while i < 32
            invariant
                i <= 32,
                forall|j: int| 0 <= j < i ==> self.bytes[j] == 0u8,
            decreases 32 - i,
        {
            if self.bytes[i] != 0 {
                return false;
            }
            i += 1;
        }
        true
    }
}

impl PartialEq for Identity {
    fn eq(&self, other: &Identity) -> (same: bool) {
        let mut i: usize = 0;
        while i < 32
            invariant
                i <= 32,
                forall|j: int| 0 <= j < i ==> self.bytes[j] == other.bytes[j],
            decreases 32 - i,
        {
            if self.bytes[i] != other.bytes[i] {
                return false;
            }
            i += 1;
        }
        proof {
            assert(self.bytes =~= other.bytes);
        }
        true
    }
}

impl Eq for Identity {}

impl PartialEqSpecImpl for Identity {
    open spec fn obeys_eq_spec() -> bool {
        true
    }

    open spec fn eq_spec(&self, other: &Identity) -> bool {
        *self == *other
    }
}

/// There is one unset identity: whatever is unset equals it.
pub proof fn lemma_unset_is_unique(a: Identity)
    ensures
        Identity::spec_unset().is_unset(),
        a.is_unset() <==> a == Identity::spec_unset(),
{
    if a.is_unset() {
        assert(a.bytes =~= Identity::spec_unset().bytes);
    }
}

} // verus!
