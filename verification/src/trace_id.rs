//! Trace tokens and their generation.

use vstd::prelude::*;

verus! {

/// A token that correlates the units of work of one logical chain.
#[derive(Clone, Copy, Debug, PartialEq, Eq, Hash, Structural)]
pub struct TraceId {
    pub bits: u64,
}

impl TraceId {
    /// The token with the given representation.
    pub fn from_bits(bits: u64) -> (id: TraceId)
        ensures
            id.bits == bits,
    {
        TraceId { bits }
    }

    /// The representation of this token.
    pub fn into_bits(self) -> (bits: u64)
        ensures
            bits == self.bits,
    {
        self.bits
    }
}

/// The representation that follows `bits` in the order of generation.
pub open spec fn successor(bits: u64) -> u64 {
    if bits == u64::MAX {
        0
    } else {
        (bits + 1) as u64
    }
}

/// A source of fresh trace tokens.
///
/// The generator walks through all representations in turn, so a token comes
/// back only after every other one has been handed out.
pub struct TraceIdGenerator {
    next: u64,
}

impl TraceIdGenerator {
    /// The representation of the token that `generate` hands out next.
    pub closed spec fn upcoming(&self) -> u64 {
        self.next
    }

    /// A generator whose first token has the representation `seed`.
    pub fn starting_at(seed: u64) -> (generator: TraceIdGenerator)
        ensures
            generator.upcoming() == seed,
    {
        TraceIdGenerator { next: seed }
    }

    /// Hands out a fresh token.
    pub fn generate(&mut self) -> (id: TraceId)
        ensures
            id.bits == old(self).upcoming(),
            final(self).upcoming() == successor(old(self).upcoming()),
    {
        let bits: u64 = self.next;
        self.next = bits.wrapping_add(1);
        TraceId { bits }
    }
}

/// Two tokens generated one after the other differ.
pub proof fn consecutive_tokens_differ(bits: u64)
    ensures
        successor(bits) != bits,
{
}

} // verus!
