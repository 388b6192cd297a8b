//! Public identifiers of the host ledger: account addresses and signing
//! identities, 32 bytes each.

use vstd::prelude::*;

verus! {

broadcast use vstd::array::group_array_axioms;

/// A 32-byte public identifier: an account address or a signing identity in
/// the host ledger.
#[derive(Clone, Copy, Debug)]
pub struct Identity {
    pub bytes: [u8; 32],
}

impl View for Identity {
    type V = Seq<u8>;

    open spec fn view(&self) -> Seq<u8> {
        self.bytes@
    }
}

impl PartialEq for Identity {
    fn eq(&self, other: &Identity) -> (r: bool) {
        let mut i: usize = 0;
        while i < 32
            invariant
                0 <= i <= 32,
                forall|j: int| 0 <= j < i ==> self.bytes@[j] == other.bytes@[j],
            decreases 32 - i,
        {
            if self.bytes[i] != other.bytes[i] {
                proof {
                    assert(self.bytes@[i as int] != other.bytes@[i as int]);
                }
                return false;
            }
            i += 1;
        }
        proof {
            assert(self.bytes@ =~= other.bytes@);
            assert(self.bytes == other.bytes);
            assert(*self == *other);
        }
        true
    }
}

impl Eq for Identity {}

impl vstd::std_specs::cmp::PartialEqSpecImpl for Identity {
    open spec fn obeys_eq_spec() -> bool {
        true
    }

    open spec fn eq_spec(&self, other: &Identity) -> bool {
        *self == *other
    }
}

/// Two identifiers with the same bytes are the same identifier.
pub proof fn lemma_identity_view_injective(a: Identity, b: Identity)
    ensures
        (a@ == b@) <==> a == b,
{
    if a@ == b@ {
        assert(a.bytes@ =~= b.bytes@);
        assert(a.bytes == b.bytes);
    }
}

/// The all-zero identifier, standing for "no identity".
pub open spec fn spec_zeroed() -> Identity {
    Identity { bytes: vstd::array::spec_array_fill_for_copy_type::<u8, 32>(0u8) }
}

impl Identity {
    /// True of the all-zero identifier.
    pub open spec fn is_zero(&self) -> bool {
        forall|i: int| 0 <= i < 32 ==> self@[i] == 0u8
    }

    /// The all-zero identifier, used where an optional identity is absent.
    pub fn zeroed() -> (r: Identity)
        ensures
            r == spec_zeroed(),
            r.is_zero(),
    {
        let bytes: [u8; 32] = vstd::array::array_fill_for_copy_types(0u8);
        Identity { bytes }
    }
}

} // verus!
