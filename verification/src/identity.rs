//! 32-byte identities: principals, account addresses, asset identifiers.

use vstd::prelude::*;

verus! {

/// A 32-byte principal, account address, or asset identifier.
#[derive(Clone, Copy, Debug)]
pub struct Identity {
    pub bytes: [u8; 32],
}

impl View for Identity {
    type V = Seq<u8>;

    open spec fn view(&self) -> Seq<u8> {
        self.bytes@
    }
}

/// The reserved 32-byte identifier that denotes the native asset: the
/// all-zero address, which the settlement platform reserves for itself.
pub open spec fn native_sentinel() -> Seq<u8> {
    Seq::new(32, |i: int| 0u8)
}

impl Identity {
    pub fn new(bytes: [u8; 32]) -> (r: Identity)
        ensures
            r@ == bytes@,
    {
        Identity { bytes }
    }

    /// The identifier every native-asset record carries as its asset field.
    pub fn native() -> (r: Identity)
        ensures
            r@ == native_sentinel(),
    {
        let bytes = [0u8; 32];
        proof {
            assert(bytes@ =~= native_sentinel());
        }
        Identity { bytes }
    }

    pub fn eq_id(&self, other: &Identity) -> (r: bool)
        ensures
            r == (self@ == other@),
    {
        let mut i: usize = 0;
        while i < 32
            invariant
                i <= 32,
                forall|j: int| 0 <= j < i ==> self.bytes@[j] == other.bytes@[j],
            decreases 32 - i,
        {
            if self.bytes[i] != other.bytes[i] {
                assert(self@[i as int] != other@[i as int]);
                return false;
            }
            i += 1;
        }
        proof {
            assert(self@ =~= other@);
        }
        true
    }

    /// Whether this identifier is the reserved native-asset sentinel.
    pub fn is_native_sentinel(&self) -> (r: bool)
        ensures
            r == (self@ == native_sentinel()),
    {
        let sentinel = Identity::native();
        self.eq_id(&sentinel)
    }
}

} // verus!
