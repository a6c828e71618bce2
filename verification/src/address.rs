//! The identity of a caller: twenty opaque bytes.

use vstd::prelude::*;
use vstd::std_specs::cmp::PartialEqSpecImpl;

verus! {

/// Twenty zero bytes: what the zero identity denotes.
pub open spec fn zero_identity() -> Seq<u8> {
    Seq::new(20, |i: int| 0u8)
}

/// The identity of an account, as recorded with each canvas. The registry
/// never looks inside one; it only tells two of them apart.
#[derive(Clone, Copy, Debug, Eq)]
pub struct Address {
    pub bytes: [u8; 20],
}

impl View for Address {
    type V = Seq<u8>;

    open spec fn view(&self) -> Seq<u8> {
        self.bytes@
    }
}

impl Address {
    /// The identity made of the given bytes.
    pub fn new(bytes: [u8; 20]) -> (r: Address)
        ensures
            r.bytes == bytes,
    {
        Address { bytes }
    }

    /// The zero identity, which stands where no creator was recorded.
    pub fn zero() -> (r: Address)
        ensures
            r@ == zero_identity(),
    {
        let r = Address { bytes: [0u8; 20] };
        assert(r@ =~= zero_identity());
        r
    }

    /// The bytes of the identity.
    pub fn into_array(self) -> (r: [u8; 20])
        ensures
            r == self.bytes,
    {
        self.bytes
    }
}

impl PartialEq for Address {
    fn eq(&self, other: &Address) -> (r: bool) {
        let mut i: usize = 0;
        while i < 20
            invariant
                i <= 20,
                forall|j: int| 0 <= j < i ==> self.bytes@[j] == other.bytes@[j],
            decreases 20 - i,
        {
            if self.bytes[i] != other.bytes[i] {
                return false;
            }
            i += 1;
        }
        assert(self.bytes@ =~= other.bytes@);
        true
    }
}

impl PartialEqSpecImpl for Address {
    open spec fn obeys_eq_spec() -> bool {
        true
    }

    open spec fn eq_spec(&self, other: &Address) -> bool {
        self.bytes@ == other.bytes@
    }
}

} // verus!
