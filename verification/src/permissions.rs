//! The policy of a group, and the store that its actors share.

use vstd::prelude::*;
use std::sync::atomic::AtomicU32;
use std::sync::atomic::Ordering;

verus! {

/// A point-in-time copy of a group's policy: one bit for each thing that the
/// group's actors may do (log at some level, dump messages, emit metrics).
#[derive(Clone, Copy, Debug, PartialEq, Eq, Structural)]
pub struct Permissions {
    pub bits: u32,
}

impl Permissions {
    /// The policy with the given bits.
    pub fn from_bits(bits: u32) -> (permissions: Permissions)
        ensures
            permissions.bits == bits,
    {
        Permissions { bits }
    }

    /// The bits of this policy.
    pub fn into_bits(self) -> (bits: u32)
        ensures
            bits == self.bits,
    {
        self.bits
    }
}

/// The policy of one group, shared by all of its actors and updated in place.
///
/// A reader gets the policy as it was at some moment, whole: never a mix of
/// two policies. Which moment is not for a contract to say, since other
/// holders of the store update it meanwhile.
pub struct AtomicPermissions {
    bits: AtomicU32,
}

impl AtomicPermissions {
    /// A store that holds `permissions`.
    pub fn new(permissions: Permissions) -> AtomicPermissions {
        AtomicPermissions { bits: AtomicU32::new(permissions.bits) }
    }

    /// The policy that the store holds now.
    pub fn load(&self) -> Permissions {
        Permissions { bits: self.bits.load(Ordering::Relaxed) }
    }

    /// Publishes `permissions` to every holder of the store.
    pub fn store(&self, permissions: Permissions) {
        self.bits.store(permissions.bits, Ordering::Relaxed);
    }
}

} // verus!
