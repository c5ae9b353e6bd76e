//! Content hashes.

use vstd::prelude::*;

verus! {

/// Number of bytes in a content hash.
pub const OID_SIZE: usize = 20;

/// The content hash that names an object in the engine's store.
///
/// A plain value of twenty bytes: it is copied freely and two hashes are
/// equal exactly when all their bytes are.
#[derive(Clone, Copy, Debug)]
pub struct Oid {
    pub bytes: [u8; 20],
}

impl View for Oid {
    type V = Seq<u8>;

    open spec fn view(&self) -> Seq<u8> {
        self.bytes@
    }
}

impl Oid {
    /// The hash made of `bytes`.
    pub fn from_bytes(bytes: [u8; 20]) -> (id: Oid)
        ensures
            id@ == bytes@,
    {
        Oid { bytes }
    }

    /// The bytes of this hash.
    pub fn as_bytes(&self) -> (b: &[u8; 20])
        ensures
            b@ == self@,
    {
        &self.bytes
    }
}

impl PartialEq for Oid {
    /// Byte-exact comparison.
    fn eq(&self, other: &Oid) -> (r: bool) {
        let mut i: usize = 0;
        while i < OID_SIZE
            invariant
                i <= OID_SIZE,
                forall|j: int| 0 <= j < i ==> self@[j] == other@[j],
            decreases OID_SIZE - i,
        {
            if self.bytes[i] != other.bytes[i] {
                return false;
            }
            i += 1;
        }
        assert(self@ =~= other@);
        true
    }
}

impl Eq for Oid {}

impl vstd::std_specs::cmp::PartialEqSpecImpl for Oid {
    open spec fn obeys_eq_spec() -> bool {
        true
    }

    open spec fn eq_spec(&self, other: &Oid) -> bool {
        self@ == other@
    }
}

} // verus!
