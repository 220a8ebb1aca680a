//! The reconciliation loop as a state machine.
//!
//! The loop itself performs no input or output. Its driver waits for the
//! timer, asks the address resolver and the DNS provider, and reports each
//! outcome as an [`Event`]; the machine answers with the next [`Action`]
//! to perform.

use crate::counter::{advanced, RefreshCounter};
use crate::record::{lookup_view, resync, resync_spec, Record, RecordState, RecordView, ResyncError};
use vstd::prelude::*;

verus! {

/// What the driver reports to the loop.
#[derive(Debug, Clone, PartialEq, Eq)]
pub enum Event {
    /// The interval timer fired.
    Tick,
    /// The resolver returned the host's current public address.
    IpResolved(String),
    /// The resolver could not be reached or gave no usable answer.
    IpUnavailable,
    /// The provider accepted the requested update.
    UpdateSucceeded,
    /// The requested update did not go through.
    UpdateFailed,
    /// The provider answered the requested lookup.
    LookupCompleted(Record),
    /// The requested lookup did not complete.
    LookupFailed,
}

/// Mathematical model of an [`Event`].
pub enum EventView {
    Tick,
    IpResolved(Seq<char>),
    IpUnavailable,
    UpdateSucceeded,
    UpdateFailed,
    LookupCompleted(RecordView),
    LookupFailed,
}

impl View for Event {
    type V = EventView;

    open spec fn view(&self) -> EventView {
        match self {
            Event::Tick => EventView::Tick,
            Event::IpResolved(ip) => EventView::IpResolved(ip@),
            Event::IpUnavailable => EventView::IpUnavailable,
            Event::UpdateSucceeded => EventView::UpdateSucceeded,
            Event::UpdateFailed => EventView::UpdateFailed,
            Event::LookupCompleted(record) => EventView::LookupCompleted(record@),
            Event::LookupFailed => EventView::LookupFailed,
        }
    }
}

/// What the loop asks its driver to do next.
#[derive(Debug, Clone, PartialEq, Eq)]
pub enum Action {
    /// Wait for the next timer tick, then report [`Event::Tick`].
    AwaitTick,
    /// Ask the resolver for the current public address.
    ResolveIp,
    /// Ask the provider to set the record `record_id` of `sub_domain` to
    /// `value`.
    UpdateRecord { sub_domain: String, record_id: String, value: String },
    /// Ask the provider for the record of `sub_domain`.
    LookupRecord { sub_domain: String },
}

impl Action {
    /// Whether the action is to wait for the timer, which ends a cycle.
    pub fn is_await_tick(&self) -> (b: bool)
        ensures
            b == (self@ is AwaitTick),
    {
        match self {
            Action::AwaitTick => true,
            _ => false,
        }
    }
}

/// Mathematical model of an [`Action`].
pub enum ActionView {
    AwaitTick,
    ResolveIp,
    UpdateRecord { sub_domain: Seq<char>, record_id: Seq<char>, value: Seq<char> },
    LookupRecord { sub_domain: Seq<char> },
}

impl View for Action {
    type V = ActionView;

    open spec fn view(&self) -> ActionView {
        match self {
            Action::AwaitTick => ActionView::AwaitTick,
            Action::ResolveIp => ActionView::ResolveIp,
            Action::UpdateRecord { sub_domain, record_id, value } => ActionView::UpdateRecord {
                sub_domain: sub_domain@,
                record_id: record_id@,
                value: value@,
            },
            Action::LookupRecord { sub_domain } => ActionView::LookupRecord {
                sub_domain: sub_domain@,
            },
        }
    }
}

/// Where in its cycle the loop stands, that is, which event it awaits.
#[derive(Debug, Clone, PartialEq, Eq)]
pub enum Phase {
    /// Between cycles: waiting for the timer.
    AwaitingTick,
    /// Waiting for the resolver's answer.
    ResolvingIp,
    /// Waiting for the provider to confirm a write of the held address.
    Updating(String),
    /// Waiting for the provider's answer to a lookup.
    Resyncing,
}

/// Mathematical model of a [`Phase`].
pub enum PhaseView {
    AwaitingTick,
    ResolvingIp,
    Updating(Seq<char>),
    Resyncing,
}

impl View for Phase {
    type V = PhaseView;

    open spec fn view(&self) -> PhaseView {
        match self {
            Phase::AwaitingTick => PhaseView::AwaitingTick,
            Phase::ResolvingIp => PhaseView::ResolvingIp,
            Phase::Updating(ip) => PhaseView::Updating(ip@),
            Phase::Resyncing => PhaseView::Resyncing,
        }
    }
}

/// Mathematical model of the loop: its fixed target, its cache of the
/// record, its tick count and its phase.
pub struct State {
    /// Host label of the maintained record; never changes.
    pub sub_domain: Seq<char>,
    /// Number of ticks between full resyncs; never changes.
    pub refresh: nat,
    /// Cached identifier of the record.
    pub record_id: Seq<char>,
    /// Cached value of the record.
    pub record_value: Seq<char>,
    /// Ticks counted since the last full resync.
    pub ticks: nat,
    /// The event that the loop awaits.
    pub phase: PhaseView,
}

impl State {
    /// The tick count never runs past the refresh threshold.
    pub open spec fn wf(self) -> bool {
        self.ticks <= self.refresh
    }

    /// The state in which the loop starts, right after a resync that
    /// observed the record `record_id` with `record_value`.
    pub open spec fn fresh(
        sub_domain: Seq<char>,
        refresh: nat,
        record_id: Seq<char>,
        record_value: Seq<char>,
    ) -> State {
        State {
            sub_domain,
            refresh,
            record_id,
            record_value,
            ticks: 0,
            phase: PhaseView::AwaitingTick,
        }
    }

    /// The action whose outcome the loop awaits in this state.
    pub open spec fn pending(self) -> ActionView {
        match self.phase {
            PhaseView::AwaitingTick => ActionView::AwaitTick,
            PhaseView::ResolvingIp => ActionView::ResolveIp,
            PhaseView::Updating(ip) => ActionView::UpdateRecord {
                sub_domain: self.sub_domain,
                record_id: self.record_id,
                value: ip,
            },
            PhaseView::Resyncing => ActionView::LookupRecord { sub_domain: self.sub_domain },
        }
    }

    /// The end of a cycle's update part: the tick is counted, and the loop
    /// either asks for a full resync, when the count has reached the refresh
    /// threshold, or goes back to waiting for the timer.
    pub open spec fn close_cycle(self) -> State {
        let ticks = advanced(self.ticks, self.refresh);
        State {
            ticks,
            phase: if ticks >= self.refresh {
                PhaseView::Resyncing
            } else {
                PhaseView::AwaitingTick
            },
            ..self
        }
    }

    /// The state after `event`, or `None` when the loop does not await
    /// `event` in this state.
    ///
    /// * A tick starts a cycle by resolving the address.
    /// * A resolved address equal to the cached value needs no write; a
    ///   different one is written to the provider; without an address
    ///   nothing can be written. Either way the cycle is then closed.
    /// * A confirmed write puts the new address into the cache; a failed one
    ///   leaves the cache alone. Either way the cycle is then closed.
    /// * A resync that observes an address record replaces the cache and
    ///   restarts the tick count; any other outcome changes neither.
    pub open spec fn next(self, event: EventView) -> Option<State> {
        match (self.phase, event) {
            (PhaseView::AwaitingTick, EventView::Tick) => Some(
                State { phase: PhaseView::ResolvingIp, ..self },
            ),
            (PhaseView::ResolvingIp, EventView::IpResolved(ip)) => if ip == self.record_value {
                Some(self.close_cycle())
            } else {
                Some(State { phase: PhaseView::Updating(ip), ..self })
            },
            (PhaseView::ResolvingIp, EventView::IpUnavailable) => Some(self.close_cycle()),
            (PhaseView::Updating(ip), EventView::UpdateSucceeded) => Some(
                State { record_value: ip, ..self }.close_cycle(),
            ),
            (PhaseView::Updating(_), EventView::UpdateFailed) => Some(self.close_cycle()),
            (PhaseView::Resyncing, EventView::LookupCompleted(record)) => match resync_spec(
                Some(record),
            ) {
                Ok(seen) => Some(
                    State::fresh(
                        self.sub_domain,
                        self.refresh,
                        seen.record_id,
                        seen.record_value,
                    ),
                ),
                Err(_) => Some(State { phase: PhaseView::AwaitingTick, ..self }),
            },
            (PhaseView::Resyncing, EventView::LookupFailed) => Some(
                State { phase: PhaseView::AwaitingTick, ..self },
            ),
            _ => None,
        }
    }
}

/// The reconciliation loop: the target, the cached record, the refresh
/// counter and the phase, owned together and changed only by [`step`].
///
/// [`step`]: Reconciler::step
#[derive(Debug)]
pub struct Reconciler {
    sub_domain: String,
    record: RecordState,
    counter: RefreshCounter,
    phase: Phase,
}

impl View for Reconciler {
    type V = State;

    closed spec fn view(&self) -> State {
        State {
            sub_domain: self.sub_domain@,
            refresh: self.counter.limit(),
            record_id: self.record.record_id@,
            record_value: self.record.record_value@,
            ticks: self.counter.count(),
            phase: self.phase@,
        }
    }
}

impl Reconciler {
    /// Starts the loop from the outcome of the initial full resync: the
    /// provider's answer to a lookup of `sub_domain`, or `None` when that
    /// lookup did not complete. The loop exists only if the lookup found an
    /// address record; otherwise the error says why there is no loop.
    pub fn start(sub_domain: String, refresh: u64, lookup: Option<Record>) -> (r: Result<
        Reconciler,
        ResyncError,
    >)
        ensures
            match resync_spec(lookup_view(lookup)) {
                Ok(seen) => r matches Ok(rec) && rec@ == State::fresh(
                    sub_domain@,
                    refresh as nat,
                    seen.record_id,
                    seen.record_value,
                ),
                Err(e) => r matches Err(err) && err == e,
            },
    {
        match resync(lookup) {
            Ok(record) => Ok(
                Reconciler {
                    sub_domain,
                    record,
                    counter: RefreshCounter::new(refresh),
                    phase: Phase::AwaitingTick,
                },
            ),
            Err(e) => Err(e),
        }
    }

    /// Host label of the maintained record.
    pub fn sub_domain(&self) -> (label: &str)
        ensures
            label@ == self@.sub_domain,
    {
        self.sub_domain.as_str()
    }

    /// Cached identifier of the record.
    pub fn record_id(&self) -> (id: &str)
        ensures
            id@ == self@.record_id,
    {
        self.record.record_id.as_str()
    }

    /// Cached value of the record: the address last read from, or written
    /// to, the provider.
    pub fn record_value(&self) -> (value: &str)
        ensures
            value@ == self@.record_value,
    {
        self.record.record_value.as_str()
    }

    /// Ticks counted since the last full resync.
    pub fn ticks(&self) -> (ticks: u64)
        ensures
            ticks == self@.ticks,
            ticks <= self@.refresh,
    {
        self.counter.ticks()
    }

    /// Number of ticks between full resyncs.
    pub fn refresh(&self) -> (refresh: u64)
        ensures
            refresh == self@.refresh,
    {
        self.counter.threshold()
    }

    /// The phase that the loop is in.
    pub fn phase(&self) -> (phase: &Phase)
        ensures
            phase@ == self@.phase,
    {
        &self.phase
    }

    /// The action that the driver owes the loop right now.
    pub fn pending(&self) -> (action: Action)
        ensures
            action@ == self@.pending(),
    {
        match &self.phase {
            Phase::AwaitingTick => Action::AwaitTick,
            Phase::ResolvingIp => Action::ResolveIp,
            Phase::Updating(ip) => Action::UpdateRecord {
                sub_domain: self.sub_domain.clone(),
                record_id: self.record.record_id.clone(),
                value: ip.clone(),
            },
            Phase::Resyncing => Action::LookupRecord { sub_domain: self.sub_domain.clone() },
        }
    }

    /// Counts the tick of the cycle that ends and decides whether a full
    /// resync is due.
    fn close_cycle(&mut self)
        ensures
            final(self)@ == old(self)@.close_cycle(),
    {
        let due = self.counter.advance();
        if due {
            self.phase = Phase::Resyncing;
        } else {
            self.phase = Phase::AwaitingTick;
        }
    }

    /// Takes one event and returns the next action.
    ///
    /// An event that the loop does not await in its current phase changes
    /// nothing and yields `None`. Every other event moves the loop as
    /// [`State::next`] says and yields the action that is then pending.
    pub fn step(&mut self, event: Event) -> (action: Option<Action>)
        ensures
            final(self)@.wf(),
            match old(self)@.next(event@) {
                Some(state) => {
                    &&& final(self)@ == state
                    &&& action matches Some(a)
                    &&& a@ == state.pending()
                },
                None => final(self)@ == old(self)@ && action is None,
            },
    {
        proof {
            use_type_invariant(&self.counter);
        }
        let mut phase = Phase::AwaitingTick;
        std::mem::swap(&mut self.phase, &mut phase);
        match (phase, event) {
            (Phase::AwaitingTick, Event::Tick) => {
                self.phase = Phase::ResolvingIp;
            },
            (Phase::ResolvingIp, Event::IpResolved(ip)) => {
                if ip == self.record.record_value {
                    self.close_cycle();
                } else {
                    self.phase = Phase::Updating(ip);
                }
            },
            (Phase::ResolvingIp, Event::IpUnavailable) => {
                self.close_cycle();
            },
            (Phase::Updating(ip), Event::UpdateSucceeded) => {
                self.record.record_value = ip;
                self.close_cycle();
            },
            (Phase::Updating(_), Event::UpdateFailed) => {
                self.close_cycle();
            },
            (Phase::Resyncing, Event::LookupCompleted(record)) => {
                match resync(Some(record)) {
                    Ok(seen) => {
                        self.record = seen;
                        self.counter.reset();
                    },
                    Err(_) => {},
                }
            },
            (Phase::Resyncing, Event::LookupFailed) => {},
            (phase, _) => {
                self.phase = phase;
                return None;
            },
        }
        Some(self.pending())
    }
}

} // verus!
