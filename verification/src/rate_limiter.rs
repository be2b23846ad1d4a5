//! Throttling shared by the actors of a group.

use vstd::prelude::*;
use std::sync::atomic::AtomicU64;
use std::sync::atomic::Ordering;

verus! {

/// A budget of permits that the actors of a group draw on, and that the
/// runtime renews once per period.
///
/// Whether a permit is left depends on what the other holders took: the
/// contract of `acquire` says what holds whatever they did, and `has_room`
/// says what is answered for each count of permits taken.
pub struct RateLimiter {
    limit: u64,
    taken: AtomicU64,
}

impl RateLimiter {
    /// The number of permits in each period.
    pub closed spec fn spec_limit(&self) -> u64 {
        self.limit
    }

    /// A limiter that grants `limit` permits in each period.
    pub fn new(limit: u64) -> (limiter: RateLimiter)
        ensures
            limiter.limit() == limit,
    {
        RateLimiter { limit, taken: AtomicU64::new(0) }
    }

    /// The number of permits in each period.
    #[verifier::when_used_as_spec(spec_limit)]
    pub fn limit(&self) -> (limit: u64)
        ensures
            limit == self.limit(),
    {
        self.limit
    }

    /// Whether a permit is left once `taken` of this period's permits are
    /// gone.
    pub fn has_room(&self, taken: u64) -> (room: bool)
        ensures
            room == (taken < self.limit()),
    {
        taken < self.limit
    }

    /// Asks for one permit. Says whether it was granted.
    ///
    /// A permit is granted only out of a budget that has one: a limiter made
    /// with no permits grants nothing. Once the budget is spent the count of
    /// permits taken stands still, so it cannot run over however often the
    /// limiter is asked.
    pub fn acquire(&self) -> (granted: bool)
        ensures
            granted ==> self.limit() > 0,
    {
        if !self.has_room(self.taken.load(Ordering::Relaxed)) {
            return false;
        }
        let before: u64 = self.taken.fetch_add(1, Ordering::Relaxed);
        self.has_room(before)
    }

    /// Starts a new period: all permits are back.
    pub fn reset(&self) {
        self.taken.store(0, Ordering::Relaxed);
    }
}

} // verus!
