//! Whole cycles of the reconciliation loop.
//!
//! One cycle runs from a timer tick until the loop waits for the timer
//! again. What happens in it depends on the loop's state and on what the
//! resolver and the provider answer; [`Outcomes`] fixes those answers, and
//! [`cycle`] is the resulting run of [`State::next`]. [`run_cycle`] does the
//! same with a [`Reconciler`], so that a loop can be driven cycle by cycle
//! without a timer or a network.

use crate::counter::advanced;
use crate::reconciler::{Action, ActionView, Event, EventView, PhaseView, Reconciler, State};
use crate::record::{lookup_view, Record, RecordView};
use vstd::prelude::*;

verus! {

/// What the outside world answers during one cycle, should it be asked.
pub struct Outcomes {
    /// The resolver's answer; `None` when it gives none.
    pub ip: Option<Seq<char>>,
    /// Whether the provider accepts a write.
    pub write_ok: bool,
    /// The provider's answer to a lookup; `None` when the lookup fails.
    pub lookup: Option<RecordView>,
}

impl Outcomes {
    /// The event with which the driver reports how `action` went.
    pub open spec fn answer(self, action: ActionView) -> EventView {
        match action {
            ActionView::AwaitTick => EventView::Tick,
            ActionView::ResolveIp => match self.ip {
                Some(ip) => EventView::IpResolved(ip),
                None => EventView::IpUnavailable,
            },
            ActionView::UpdateRecord { .. } => if self.write_ok {
                EventView::UpdateSucceeded
            } else {
                EventView::UpdateFailed
            },
            ActionView::LookupRecord { .. } => match self.lookup {
                Some(record) => EventView::LookupCompleted(record),
                None => EventView::LookupFailed,
            },
        }
    }
}

/// A finished run: the state reached and the calls made on the way, in
/// order. Waiting for the timer is not a call.
pub struct Run {
    pub end: State,
    pub calls: Seq<ActionView>,
}

/// How many events a loop in `phase` can still take before it waits for
/// the timer.
pub open spec fn steps_left(phase: PhaseView) -> nat {
    match phase {
        PhaseView::AwaitingTick => 0,
        PhaseView::Resyncing => 1,
        PhaseView::Updating(_) => 2,
        PhaseView::ResolvingIp => 3,
    }
}

/// Performs the pending action of `s` and those that follow, each answered
/// by `o`, until the loop waits for the timer. (The loop awaits the answer
/// to its pending action in every state, and that answer brings it closer
/// to waiting; the branches for the contrary only make the definition
/// total.)
pub open spec fn finish(s: State, o: Outcomes) -> Run
    decreases steps_left(s.phase),
{
    if s.phase is AwaitingTick {
        Run { end: s, calls: Seq::empty() }
    } else {
        match s.next(o.answer(s.pending())) {
            Some(n) => if steps_left(n.phase) < steps_left(s.phase) {
                let rest = finish(n, o);
                Run { end: rest.end, calls: seq![s.pending()] + rest.calls }
            } else {
                Run { end: s, calls: Seq::empty() }
            },
            None => Run { end: s, calls: Seq::empty() },
        }
    }
}

/// One whole cycle: the tick, then every action until the loop waits for
/// the timer again. `s` is a state between cycles.
pub open spec fn cycle(s: State, o: Outcomes) -> Run {
    match s.next(EventView::Tick) {
        Some(n) => finish(n, o),
        None => Run { end: s, calls: Seq::empty() },
    }
}

/// The state after the first `k` of the cycles whose outcomes are `os`.
pub open spec fn after_cycles(s: State, os: Seq<Outcomes>, k: nat) -> State
    decreases k,
{
    if k == 0 {
        s
    } else {
        cycle(after_cycles(s, os, (k - 1) as nat), os[k - 1]).end
    }
}

/// Whether the cycle that starts in `s` ends with a full resync: counting
/// its tick brings the count to the refresh threshold.
pub open spec fn resync_due(s: State) -> bool {
    advanced(s.ticks, s.refresh) >= s.refresh
}

/// Whether the cycle that starts in `s` writes to the provider: the
/// resolver answers, and with another address than the cached one.
pub open spec fn write_due(s: State, o: Outcomes) -> bool {
    o.ip matches Some(ip) && ip != s.record_value
}

/// The cached value once the update part of the cycle is over: the resolved
/// address if the provider took it (or held it already), else what was
/// cached before.
pub open spec fn value_after_update(s: State, o: Outcomes) -> Seq<char> {
    match o.ip {
        Some(ip) => if o.write_ok {
            ip
        } else {
            s.record_value
        },
        None => s.record_value,
    }
}

/// The calls of the cycle that starts in `s`, in order: the resolver, then
/// the write if one is due, then the lookup if a resync is due.
pub open spec fn calls_of(s: State, o: Outcomes) -> Seq<ActionView> {
    seq![ActionView::ResolveIp] + (if write_due(s, o) {
        seq![
            ActionView::UpdateRecord {
                sub_domain: s.sub_domain,
                record_id: s.record_id,
                value: o.ip->0,
            },
        ]
    } else {
        Seq::empty()
    }) + (if resync_due(s) {
        seq![ActionView::LookupRecord { sub_domain: s.sub_domain }]
    } else {
        Seq::empty()
    })
}

/// The state in which the cycle that starts in `s` ends.
pub open spec fn end_of(s: State, o: Outcomes) -> State {
    match o.lookup {
        Some(RecordView::A(id, value)) if resync_due(s) => State::fresh(
            s.sub_domain,
            s.refresh,
            id,
            value,
        ),
        _ => State {
            record_value: value_after_update(s, o),
            ticks: advanced(s.ticks, s.refresh),
            phase: PhaseView::AwaitingTick,
            ..s
        },
    }
}

/// A cycle in closed form: running the loop event by event from a state
/// between cycles makes exactly the calls of [`calls_of`] and ends in the
/// state of [`end_of`].
pub proof fn lemma_cycle_closed_form(s: State, o: Outcomes)
    requires
        s.phase is AwaitingTick,
    ensures
        cycle(s, o).calls == calls_of(s, o),
        cycle(s, o).end == end_of(s, o),
{
    reveal_with_fuel(finish, 4);
    let c = cycle(s, o);
    assert(c.calls =~= calls_of(s, o));
}

/// Fixed answers of the resolver and the provider, to run the loop without
/// either: what [`Outcomes`] is to the model.
#[derive(Debug, Clone, PartialEq, Eq)]
pub struct Answers {
    /// The resolver's answer; `None` when it gives none.
    pub ip: Option<String>,
    /// Whether the provider accepts a write.
    pub write_ok: bool,
    /// The provider's answer to a lookup; `None` when the lookup fails.
    pub lookup: Option<Record>,
}

impl View for Answers {
    type V = Outcomes;

    open spec fn view(&self) -> Outcomes {
        Outcomes {
            ip: match self.ip {
                Some(ip) => Some(ip@),
                None => None,
            },
            write_ok: self.write_ok,
            lookup: lookup_view(self.lookup),
        }
    }
}

/// The models of the actions in `calls`, in the same order.
pub open spec fn views(calls: Seq<Action>) -> Seq<ActionView> {
    calls.map_values(|a: Action| a@)
}

impl Answers {
    /// The event that reports how `action` went under these answers.
    pub fn answer(&self, action: &Action) -> (event: Event)
        ensures
            event@ == self@.answer(action@),
    {
        match action {
            Action::AwaitTick => Event::Tick,
            Action::ResolveIp => match &self.ip {
                Some(ip) => Event::IpResolved(ip.clone()),
                None => Event::IpUnavailable,
            },
            Action::UpdateRecord { .. } => if self.write_ok {
                Event::UpdateSucceeded
            } else {
                Event::UpdateFailed
            },
            Action::LookupRecord { .. } => match &self.lookup {
                Some(Record::A(id, value)) => Event::LookupCompleted(
                    Record::A(id.clone(), value.clone()),
                ),
                Some(Record::NotFound) => Event::LookupCompleted(Record::NotFound),
                None => Event::LookupFailed,
            },
        }
    }
}

/// Runs one whole cycle of `reconciler` against fixed answers and returns
/// the calls that the cycle made, in order. A loop that is not between
/// cycles is left as it is.
pub fn run_cycle(reconciler: &mut Reconciler, answers: &Answers) -> (calls: Vec<Action>)
    ensures
        final(reconciler)@ == cycle(old(reconciler)@, answers@).end,
        views(calls@) == cycle(old(reconciler)@, answers@).calls,
{
    let mut calls: Vec<Action> = Vec::new();
    let ghost whole = cycle(reconciler@, answers@);
    let mut action = match reconciler.step(Event::Tick) {
        Some(action) => action,
        None => {
            return calls;
        },
    };
    while !action.is_await_tick()
        invariant
            action@ == reconciler@.pending(),
            whole.end == finish(reconciler@, answers@).end,
            whole.calls == views(calls@) + finish(reconciler@, answers@).calls,
        decreases steps_left(reconciler@.phase),
    {
        let event = answers.answer(&action);
        let ghost before = reconciler@;
        let ghost made = calls@;
        calls.push(action);
        let next = reconciler.step(event);
        proof {
            assert(views(calls@) =~= views(made) + seq![before.pending()]);
        }
        action = match next {
            Some(action) => action,
            None => {
                return calls;
            },
        };
    }
    calls
}

} // verus!
