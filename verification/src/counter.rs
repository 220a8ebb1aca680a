//! The tick counter that schedules full resynchronisations.

use vstd::prelude::*;

verus! {

/// The count that follows `count` when one more tick is recorded against
/// `limit`: one more, but never beyond the limit.
pub open spec fn advanced(count: nat, limit: nat) -> nat {
    if count < limit {
        count + 1
    } else {
        count
    }
}

/// Counts timer ticks since the last full resync, up to a fixed threshold.
///
/// The count stays within `0..=limit` for the whole life of the counter.
#[derive(Debug, Clone, Copy, PartialEq, Eq)]
pub struct RefreshCounter {
    ticks: u64,
    threshold: u64,
}

impl RefreshCounter {
    /// Ticks counted since the last reset.
    pub closed spec fn count(&self) -> nat {
        self.ticks as nat
    }

    /// Number of ticks after which a resync is due.
    pub closed spec fn limit(&self) -> nat {
        self.threshold as nat
    }

    /// Holds of every counter: the count never runs past the limit.
    #[verifier::type_invariant]
    pub open spec fn within_limit(&self) -> bool {
        self.count() <= self.limit()
    }

    /// A counter at zero with the given threshold.
    pub fn new(threshold: u64) -> (c: RefreshCounter)
        ensures
            c.count() == 0,
            c.limit() == threshold,
    {
        RefreshCounter { ticks: 0, threshold }
    }

    /// Ticks counted since the last reset.
    pub fn ticks(&self) -> (t: u64)
        ensures
            t == self.count(),
            t <= self.limit(),
    {
        proof {
            use_type_invariant(self);
        }
        self.ticks
    }

    /// Number of ticks after which a resync is due.
    pub fn threshold(&self) -> (t: u64)
        ensures
            t == self.limit(),
            self.count() <= t,
    {
        proof {
            use_type_invariant(self);
        }
        self.threshold
    }

    /// Records one tick and reports whether a resync is now due, that is,
    /// whether the count has reached the threshold.
    pub fn advance(&mut self) -> (due: bool)
        ensures
            final(self).limit() == old(self).limit(),
            final(self).count() == advanced(old(self).count(), old(self).limit()),
            final(self).count() <= final(self).limit(),
            due == (final(self).count() >= final(self).limit()),
    {
        proof {
            use_type_invariant(&*self);
        }
        if self.ticks < self.threshold {
            self.ticks = self.ticks + 1;
        }
        self.ticks >= self.threshold
    }

    /// Starts counting from zero again, as after a completed resync.
    pub fn reset(&mut self)
        ensures
            final(self).limit() == old(self).limit(),
            final(self).count() == 0,
    {
        self.ticks = 0;
    }
}

} // verus!
