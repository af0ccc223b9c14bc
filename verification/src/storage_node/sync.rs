//! The synchronisation boost of a storage node: the more bags it stores
//! beyond a minimum, up to a maximum, the more its battery is recharged.

use vstd::prelude::*;

verus! {

/// The boost for `stored` bags: the excess over `min_boost`, capped at
/// `max_boost`.
pub open spec fn synchronization_boost_for(stored: u64, min_boost: u64, max_boost: u64) -> u64 {
    let excess = if stored >= min_boost { (stored - min_boost) as u64 } else { 0 };
    if excess < max_boost { excess } else { max_boost }
}

/// Tracks the boost last applied.
pub struct SynchronizationManager {
    synchronization_boost: u64,
    synchronization_boost_interval_ms: u64,
    min_synchronization_boost: u64,
    max_synchronization_boost: u64,
}

impl SynchronizationManager {
    /// The boost last applied.
    pub closed spec fn boost(&self) -> u64 {
        self.synchronization_boost
    }

    /// The lower bound of boosts.
    pub closed spec fn min_boost(&self) -> u64 {
        self.min_synchronization_boost
    }

    /// The upper bound of boosts.
    pub closed spec fn max_boost(&self) -> u64 {
        self.max_synchronization_boost
    }

    /// The interval between checks.
    pub closed spec fn interval_ms(&self) -> u64 {
        self.synchronization_boost_interval_ms
    }

    /// A manager with no boost applied yet.
    pub fn new(
        synchronization_boost_interval_ms: u64,
        min_synchronization_boost: u64,
        max_synchronization_boost: u64,
    ) -> (r: SynchronizationManager)
        ensures
            r.boost() == 0,
            r.interval_ms() == synchronization_boost_interval_ms,
            r.min_boost() == min_synchronization_boost,
            r.max_boost() == max_synchronization_boost,
    {
        SynchronizationManager {
            synchronization_boost: 0,
            synchronization_boost_interval_ms,
            min_synchronization_boost,
            max_synchronization_boost,
        }
    }

    /// The interval between checks.
    pub fn get_interval_ms(&self) -> (r: u64)
        ensures
            r == self.interval_ms(),
    {
        self.synchronization_boost_interval_ms
    }

    /// The boost last applied.
    pub fn get_synchronization_boost(&self) -> (r: u64)
        ensures
            r == self.boost(),
    {
        self.synchronization_boost
    }

    /// The boost that `stored` bags call for (see
    /// `synchronization_boost_for`), when it exceeds the boost last applied:
    /// the node's battery is then to be recharged with it.
    pub fn check_synchronization_boost(&self, stored: u64) -> (r: Option<u64>)
        ensures
            synchronization_boost_for(stored, self.min_boost(), self.max_boost()) > self.boost() ==> r
                == Some(synchronization_boost_for(stored, self.min_boost(), self.max_boost())),
            synchronization_boost_for(stored, self.min_boost(), self.max_boost()) <= self.boost()
                ==> r is None,
    {
        let boost = stored.saturating_sub(self.min_synchronization_boost);
        let boost = if boost < self.max_synchronization_boost {
            boost
        } else {
            self.max_synchronization_boost
        };
        if boost > self.synchronization_boost {
            Some(boost)
        } else {
            None
        }
    }

    /// Records that the battery was recharged with `boost`.
    pub fn record_boost(&mut self, boost: u64)
        ensures
            final(self).boost() == boost,
            final(self).min_boost() == old(self).min_boost(),
            final(self).max_boost() == old(self).max_boost(),
            final(self).interval_ms() == old(self).interval_ms(),
    {
        self.synchronization_boost = boost;
    }
}

} // verus!
