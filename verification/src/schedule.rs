//! The timing that the loop is configured with.

use vstd::prelude::*;

verus! {

/// When the loop runs: the seconds between two ticks and the number of
/// ticks between two full resyncs.
#[derive(Debug, Clone, Copy, PartialEq, Eq)]
pub struct Schedule {
    interval: u64,
    refresh: u64,
}

impl Schedule {
    /// Seconds between two ticks.
    pub closed spec fn interval_secs(&self) -> nat {
        self.interval as nat
    }

    /// Ticks between two full resyncs.
    pub closed spec fn refresh_ticks(&self) -> nat {
        self.refresh as nat
    }

    /// Holds of every schedule: a timer needs a positive interval.
    #[verifier::type_invariant]
    pub open spec fn positive_interval(&self) -> bool {
        self.interval_secs() > 0
    }

    /// The schedule with the given interval, in seconds, and refresh
    /// threshold, in ticks. There is none for an interval of zero; every
    /// refresh threshold is accepted, zero meaning a resync at every tick.
    pub fn new(interval: u64, refresh: u64) -> (r: Option<Schedule>)
        ensures
            match r {
                Some(schedule) => {
                    &&& interval > 0
                    &&& schedule.interval_secs() == interval
                    &&& schedule.refresh_ticks() == refresh
                },
                None => interval == 0,
            },
    {
        if interval == 0 {
            None
        } else {
            Some(Schedule { interval, refresh })
        }
    }

    /// Seconds between two ticks; never zero.
    pub fn interval(&self) -> (secs: u64)
        ensures
            secs == self.interval_secs(),
            secs > 0,
    {
        proof {
            use_type_invariant(self);
        }
        self.interval
    }

    /// Ticks between two full resyncs.
    pub fn refresh(&self) -> (ticks: u64)
        ensures
            ticks == self.refresh_ticks(),
    {
        self.refresh
    }
}

} // verus!
