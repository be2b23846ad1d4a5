//! Addresses of actors and groups.

use vstd::prelude::*;

verus! {

/// An opaque identifier of an actor or of a group.
///
/// Every value but [`Addr::null`] names a participant; the null address
/// stands for "nobody", as in the sender of a message that no actor sent.
#[derive(Clone, Copy, Debug, PartialEq, Eq, Hash, Structural)]
pub struct Addr(pub usize);

impl Addr {
    /// The reserved address that names nobody, in contracts.
    pub open spec fn spec_null() -> Addr {
        Addr(usize::MAX)
    }

    /// The reserved address that names nobody.
    #[verifier::when_used_as_spec(spec_null)]
    pub fn null() -> (addr: Addr)
        ensures
            addr == Addr::null(),
    {
        Addr(usize::MAX)
    }

    /// The address with the given representation.
    pub fn from_bits(bits: usize) -> (addr: Addr)
        ensures
            addr.0 == bits,
    {
        Addr(bits)
    }

    /// The representation of this address.
    pub fn into_bits(self) -> (bits: usize)
        ensures
            bits == self.0,
    {
        self.0
    }

    /// Whether this address names nobody.
    pub fn is_null(&self) -> (null: bool)
        ensures
            null == (*self == Addr::null()),
    {
        self.0 == usize::MAX
    }
}

} // verus!
