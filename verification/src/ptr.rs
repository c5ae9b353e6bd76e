//! Engine addresses.

use vstd::prelude::*;

verus! {

/// The address of a resource that lives inside the engine.
///
/// This crate never looks behind an address: it only carries it, compares it
/// with the null address and hands it back to the engine.
#[derive(Clone, Copy, PartialEq, Eq, Debug, Structural)]
pub struct Ptr {
    pub addr: usize,
}

impl Ptr {
    /// The null address.
    pub fn null() -> (p: Ptr)
        ensures
            p.addr == 0,
    {
        Ptr { addr: 0 }
    }

    /// The address `addr`.
    pub fn new(addr: usize) -> (p: Ptr)
        ensures
            p.addr == addr,
    {
        Ptr { addr }
    }

    /// The address as a number.
    pub fn addr(self) -> (a: usize)
        ensures
            a == self.addr,
    {
        self.addr
    }

    pub open spec fn is_null_spec(self) -> bool {
        self.addr == 0
    }

    /// Whether this is the null address.
    #[verifier::when_used_as_spec(is_null_spec)]
    pub fn is_null(self) -> (b: bool)
        ensures
            b == (self.addr == 0),
    {
        self.addr == 0
    }
}

} // verus!
