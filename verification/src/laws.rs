//! Laws of the reconciliation loop.
//!
//! Each law is proved of the model ([`State::next`] and [`cycle`]) to which
//! [`Reconciler::step`](crate::reconciler::Reconciler::step) is held, so it
//! holds of every run of the executable loop.

use crate::cycle::{
    after_cycles, cycle, lemma_cycle_closed_form, resync_due, steps_left, value_after_update,
    Outcomes,
};
use crate::reconciler::{ActionView, EventView, PhaseView, State};
use crate::record::RecordView;
use vstd::prelude::*;

verus! {

/// No call in `calls` is a write to the provider.
pub open spec fn no_write(calls: Seq<ActionView>) -> bool {
    forall|i: int| 0 <= i < calls.len() ==> !(#[trigger] calls[i] is UpdateRecord)
}

/// No call in `calls` is a lookup at the provider.
pub open spec fn no_lookup(calls: Seq<ActionView>) -> bool {
    forall|i: int| 0 <= i < calls.len() ==> !(#[trigger] calls[i] is LookupRecord)
}

/// The call at index `at` is the write `write`, and it is the only write in
/// `calls`.
pub open spec fn one_write(calls: Seq<ActionView>, at: int, write: ActionView) -> bool {
    &&& write is UpdateRecord
    &&& 0 <= at < calls.len()
    &&& calls[at] == write
    &&& forall|i: int| 0 <= i < calls.len() && i != at ==> !(#[trigger] calls[i] is UpdateRecord)
}

/// The last call in `calls` is a lookup of `sub_domain`, and it is the only
/// lookup in `calls`.
pub open spec fn one_lookup(calls: Seq<ActionView>, sub_domain: Seq<char>) -> bool {
    &&& calls.len() > 0
    &&& calls.last() == (ActionView::LookupRecord { sub_domain })
    &&& forall|i: int| 0 <= i < calls.len() - 1 ==> !(#[trigger] calls[i] is LookupRecord)
}

/// Every event keeps the target and the refresh threshold, and keeps the
/// tick count within the threshold.
pub proof fn law_step_keeps_target(s: State, event: EventView)
    requires
        s.wf(),
        s.next(event) is Some,
    ensures
        s.next(event)->0.wf(),
        s.next(event)->0.sub_domain == s.sub_domain,
        s.next(event)->0.refresh == s.refresh,
{
}

/// The loop never refuses its driver: the event that reports the outcome of
/// the pending action is always one that the loop awaits. Within a cycle
/// each such event brings the loop closer to waiting for the timer, so a
/// cycle takes at most four events, the tick included.
pub proof fn law_pending_action_is_awaited(s: State, o: Outcomes)
    ensures
        s.next(o.answer(s.pending())) is Some,
        !(s.phase is AwaitingTick) ==> steps_left(s.next(o.answer(s.pending()))->0.phase)
            < steps_left(s.phase),
        s.phase is AwaitingTick ==> steps_left(s.next(o.answer(s.pending()))->0.phase) == 3,
{
}

/// Whatever the resolver and the provider answer, a cycle ends with the loop
/// waiting for the next tick, its target and threshold unchanged.
pub proof fn law_cycle_returns_to_waiting(s: State, o: Outcomes)
    requires
        s.wf(),
        s.phase is AwaitingTick,
    ensures
        cycle(s, o).end.phase is AwaitingTick,
        cycle(s, o).end.wf(),
        cycle(s, o).end.sub_domain == s.sub_domain,
        cycle(s, o).end.refresh == s.refresh,
{
    lemma_cycle_closed_form(s, o);
}

/// The cached identifier changes only when a resync observes an address
/// record, and then identifier and value are replaced together by what was
/// observed. An identifier that is not empty therefore stays so as long as
/// the provider reports address records with identifiers.
pub proof fn law_identifier_follows_resync(s: State, event: EventView)
    requires
        s.next(event) is Some,
    ensures
        s.next(event)->0.record_id != s.record_id ==> s.phase is Resyncing && event
            == EventView::LookupCompleted(
            RecordView::A(s.next(event)->0.record_id, s.next(event)->0.record_value),
        ),
        s.record_id.len() > 0 && !(event matches EventView::LookupCompleted(
            RecordView::A(id, _),
        ) && id.len() == 0) ==> s.next(event)->0.record_id.len() > 0,
{
}

/// A cycle in which the resolved address equals the cached value writes
/// nothing to the provider and leaves the cached value alone, unless a
/// resync that is due replaces it.
pub proof fn law_unchanged_address_writes_nothing(s: State, o: Outcomes)
    requires
        s.phase is AwaitingTick,
        o.ip == Some(s.record_value),
    ensures
        no_write(cycle(s, o).calls),
        !resync_due(s) ==> cycle(s, o).end.record_value == s.record_value && cycle(
            s,
            o,
        ).end.record_id == s.record_id,
{
    lemma_cycle_closed_form(s, o);
}

/// A cycle in which the resolver gives no address writes nothing to the
/// provider; its tick is counted all the same.
pub proof fn law_unresolved_address_writes_nothing(s: State, o: Outcomes)
    requires
        s.wf(),
        s.phase is AwaitingTick,
        o.ip is None,
    ensures
        no_write(cycle(s, o).calls),
        !resync_due(s) ==> cycle(s, o).calls == seq![ActionView::ResolveIp] && cycle(s, o).end
            == (State { ticks: (s.ticks + 1) as nat, ..s }),
{
    lemma_cycle_closed_form(s, o);
    if !resync_due(s) {
        assert(cycle(s, o).calls =~= seq![ActionView::ResolveIp]);
    }
}

/// A cycle in which the resolved address differs from the cached value
/// writes it to the provider exactly once, under the cached identifier. If
/// the provider accepts the write, the new address is the cached value at
/// the end of the cycle, and a following cycle that resolves the same
/// address writes nothing.
///
/// The cached value is another one only where a resync, due in the same
/// cycle, observed a record with another value; that case is left out.
pub proof fn law_accepted_write_settles(s: State, o: Outcomes, ip: Seq<char>, o2: Outcomes)
    requires
        s.phase is AwaitingTick,
        o.ip == Some(ip),
        ip != s.record_value,
        o.write_ok,
        !(resync_due(s) && (o.lookup matches Some(RecordView::A(_, value)) && value != ip)),
        o2.ip == Some(ip),
    ensures
        one_write(
            cycle(s, o).calls,
            1,
            ActionView::UpdateRecord {
                sub_domain: s.sub_domain,
                record_id: s.record_id,
                value: ip,
            },
        ),
        cycle(s, o).end.record_value == ip,
        no_write(cycle(cycle(s, o).end, o2).calls),
{
    lemma_cycle_closed_form(s, o);
    lemma_cycle_closed_form(cycle(s, o).end, o2);
}

/// A refused write changes nothing in the cache.
pub proof fn law_refused_write_keeps_cache(s: State)
    requires
        s.phase is Updating,
    ensures
        s.next(EventView::UpdateFailed) matches Some(n) && n.record_id == s.record_id
            && n.record_value == s.record_value && n.ticks == s.close_cycle().ticks,
{
}

/// A cycle whose write the provider refuses still makes that one write and
/// no other, and a following cycle that resolves the same address makes the
/// same write again: the timer is the retry.
///
/// Where a resync, due in the same cycle, adopts a record that differs from
/// the cache, the cache is what the resync observed; that case is left out.
pub proof fn law_refused_write_is_retried(s: State, o: Outcomes, ip: Seq<char>, o2: Outcomes)
    requires
        s.phase is AwaitingTick,
        o.ip == Some(ip),
        ip != s.record_value,
        !o.write_ok,
        !(resync_due(s) && (o.lookup matches Some(RecordView::A(id, value)) && (id != s.record_id
            || value != s.record_value))),
        o2.ip == Some(ip),
    ensures
        one_write(
            cycle(s, o).calls,
            1,
            ActionView::UpdateRecord {
                sub_domain: s.sub_domain,
                record_id: s.record_id,
                value: ip,
            },
        ),
        cycle(s, o).end.record_id == s.record_id,
        cycle(s, o).end.record_value == s.record_value,
        one_write(
            cycle(cycle(s, o).end, o2).calls,
            1,
            ActionView::UpdateRecord {
                sub_domain: s.sub_domain,
                record_id: s.record_id,
                value: ip,
            },
        ),
{
    lemma_cycle_closed_form(s, o);
    lemma_cycle_closed_form(cycle(s, o).end, o2);
}

/// Counted from a resync, the tick count reaches a refresh threshold of
/// `refresh >= 1` at the cycle number `refresh` and at none before it: the
/// cycles before make no lookup, that cycle makes exactly one, whatever the
/// resolver answered and whether or not anything was written in between.
/// If that lookup finds an address record, the count is back at zero, and
/// the same holds again from there.
///
/// `k` counts the cycles already run, so the cycle spoken of is number
/// `k + 1`.
pub proof fn law_resync_once_per_refresh_ticks(s: State, os: Seq<Outcomes>, k: nat)
    requires
        s.phase is AwaitingTick,
        s.ticks == 0,
        s.refresh >= 1,
        k < s.refresh,
        k < os.len(),
    ensures
        after_cycles(s, os, k).phase is AwaitingTick,
        after_cycles(s, os, k).ticks == k,
        after_cycles(s, os, k).refresh == s.refresh,
        after_cycles(s, os, k).sub_domain == s.sub_domain,
        k + 1 < s.refresh ==> no_lookup(cycle(after_cycles(s, os, k), os[k as int]).calls),
        k + 1 == s.refresh ==> one_lookup(
            cycle(after_cycles(s, os, k), os[k as int]).calls,
            s.sub_domain,
        ),
        k + 1 == s.refresh && (os[k as int].lookup matches Some(RecordView::A(_, _))) ==> cycle(
            after_cycles(s, os, k),
            os[k as int],
        ).end.ticks == 0,
    decreases k,
{
    if k > 0 {
        let j = (k - 1) as nat;
        law_resync_once_per_refresh_ticks(s, os, j);
        lemma_cycle_closed_form(after_cycles(s, os, j), os[j as int]);
    }
    lemma_cycle_closed_form(after_cycles(s, os, k), os[k as int]);
}

/// With a refresh threshold of zero every cycle ends with exactly one
/// lookup.
pub proof fn law_zero_refresh_resyncs_every_cycle(s: State, o: Outcomes)
    requires
        s.wf(),
        s.phase is AwaitingTick,
        s.refresh == 0,
    ensures
        one_lookup(cycle(s, o).calls, s.sub_domain),
{
    lemma_cycle_closed_form(s, o);
}

/// A resync that fails, or finds no address record, changes neither the
/// cache nor the tick count; the loop goes on to wait for the next tick.
pub proof fn law_failed_resync_changes_nothing(s: State, event: EventView)
    requires
        s.phase is Resyncing,
        event is LookupFailed || event == EventView::LookupCompleted(RecordView::NotFound),
    ensures
        s.next(event) == Some(State { phase: PhaseView::AwaitingTick, ..s }),
{
}

/// A cycle whose resync adopts no record ends with the cache as its update
/// part left it and with the tick count at the threshold, so that the next
/// cycle asks for the resync again.
pub proof fn law_failed_resync_is_retried(s: State, o: Outcomes, o2: Outcomes)
    requires
        s.wf(),
        s.phase is AwaitingTick,
        resync_due(s),
        !(o.lookup matches Some(RecordView::A(_, _))),
    ensures
        one_lookup(cycle(s, o).calls, s.sub_domain),
        cycle(s, o).end.record_id == s.record_id,
        cycle(s, o).end.record_value == value_after_update(s, o),
        cycle(s, o).end.ticks == s.refresh,
        one_lookup(cycle(cycle(s, o).end, o2).calls, s.sub_domain),
{
    lemma_cycle_closed_form(s, o);
    lemma_cycle_closed_form(cycle(s, o).end, o2);
}

/// A resync that observes an address record replaces the cache by what it
/// observed, whatever the update part of the cycle did, and restarts the
/// tick count.
pub proof fn law_resync_adopts_record(s: State, o: Outcomes, id: Seq<char>, value: Seq<char>)
    requires
        s.phase is AwaitingTick,
        resync_due(s),
        o.lookup == Some(RecordView::A(id, value)),
    ensures
        cycle(s, o).end == State::fresh(s.sub_domain, s.refresh, id, value),
{
    lemma_cycle_closed_form(s, o);
}

} // verus!
