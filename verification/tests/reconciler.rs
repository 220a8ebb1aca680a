use dnspod_ddns::cycle::{run_cycle, Answers};
use dnspod_ddns::reconciler::{Action, Event, Phase, Reconciler};
use dnspod_ddns::record::{Record, ResyncError};

fn started(refresh: u64, id: &str, value: &str) -> Reconciler {
    let found = Record::A(id.to_string(), value.to_string());
    Reconciler::start("home".to_string(), refresh, Some(found)).unwrap()
}

fn lookup_home() -> Action {
    Action::LookupRecord { sub_domain: "home".to_string() }
}

fn update_home(id: &str, value: &str) -> Action {
    Action::UpdateRecord {
        sub_domain: "home".to_string(),
        record_id: id.to_string(),
        value: value.to_string(),
    }
}

/// Runs one cycle event by event and returns the calls that were made.
fn run_cycle_by_steps(
    rec: &mut Reconciler,
    ip: Option<&str>,
    write_ok: bool,
    lookup: Option<Record>,
) -> Vec<Action> {
    let mut calls = Vec::new();
    let mut action = rec.step(Event::Tick).unwrap();
    while action != Action::AwaitTick {
        let event = match &action {
            Action::AwaitTick => unreachable!(),
            Action::ResolveIp => match ip {
                Some(ip) => Event::IpResolved(ip.to_string()),
                None => Event::IpUnavailable,
            },
            Action::UpdateRecord { .. } => {
                if write_ok {
                    Event::UpdateSucceeded
                } else {
                    Event::UpdateFailed
                }
            }
            Action::LookupRecord { .. } => match &lookup {
                Some(record) => Event::LookupCompleted(record.clone()),
                None => Event::LookupFailed,
            },
        };
        calls.push(action);
        assert!(calls.len() <= 3);
        action = rec.step(event).unwrap();
    }
    calls
}

#[test]
fn start_adopts_the_record_found() {
    let rec = started(3, "42", "1.2.3.4");
    assert_eq!(rec.sub_domain(), "home");
    assert_eq!(rec.record_id(), "42");
    assert_eq!(rec.record_value(), "1.2.3.4");
    assert_eq!(rec.ticks(), 0);
    assert_eq!(rec.refresh(), 3);
    assert_eq!(rec.phase(), &Phase::AwaitingTick);
    assert_eq!(rec.pending(), Action::AwaitTick);
}

#[test]
fn start_fails_when_the_record_is_missing() {
    let r = Reconciler::start("home".to_string(), 3, Some(Record::NotFound));
    assert_eq!(r.err(), Some(ResyncError::NotFound));
}

#[test]
fn start_fails_when_the_lookup_fails() {
    let r = Reconciler::start("home".to_string(), 3, None);
    assert_eq!(r.err(), Some(ResyncError::LookupFailed));
}

#[test]
fn refresh_of_three_resyncs_on_the_third_tick() {
    let mut rec = started(3, "42", "1.2.3.4");
    let found = Record::A("42".to_string(), "1.2.3.4".to_string());

    let calls = run_cycle_by_steps(&mut rec, Some("1.2.3.4"), true, Some(found.clone()));
    assert_eq!(calls, vec![Action::ResolveIp]);
    assert_eq!(rec.ticks(), 1);

    let calls = run_cycle_by_steps(&mut rec, Some("1.2.3.4"), true, Some(found.clone()));
    assert_eq!(calls, vec![Action::ResolveIp]);
    assert_eq!(rec.ticks(), 2);

    let calls = run_cycle_by_steps(&mut rec, Some("1.2.3.4"), true, Some(found));
    assert_eq!(calls, vec![Action::ResolveIp, lookup_home()]);
    assert_eq!(rec.ticks(), 0);
    assert_eq!(rec.phase(), &Phase::AwaitingTick);
}

#[test]
fn changed_address_is_written_once() {
    let mut rec = started(10, "42", "1.2.3.4");
    assert_eq!(rec.step(Event::Tick), Some(Action::ResolveIp));
    assert_eq!(
        rec.step(Event::IpResolved("1.2.3.5".to_string())),
        Some(update_home("42", "1.2.3.5"))
    );
    assert_eq!(rec.phase(), &Phase::Updating("1.2.3.5".to_string()));
    assert_eq!(rec.record_value(), "1.2.3.4");
    assert_eq!(rec.step(Event::UpdateSucceeded), Some(Action::AwaitTick));
    assert_eq!(rec.record_value(), "1.2.3.5");
    assert_eq!(rec.record_id(), "42");
    assert_eq!(rec.ticks(), 1);
}

#[test]
fn resolver_failure_skips_the_update_and_counts_the_tick() {
    let mut rec = started(10, "42", "1.2.3.4");
    let calls = run_cycle_by_steps(&mut rec, None, true, None);
    assert_eq!(calls, vec![Action::ResolveIp]);
    assert_eq!(rec.record_id(), "42");
    assert_eq!(rec.record_value(), "1.2.3.4");
    assert_eq!(rec.ticks(), 1);
}

#[test]
fn unchanged_address_is_never_written() {
    let mut rec = started(4, "42", "1.2.3.4");
    for _ in 0..20 {
        let found = Record::A("42".to_string(), "1.2.3.4".to_string());
        let calls = run_cycle_by_steps(&mut rec, Some("1.2.3.4"), true, Some(found));
        assert!(calls.iter().all(|c| !matches!(c, Action::UpdateRecord { .. })));
        assert_eq!(rec.record_value(), "1.2.3.4");
    }
}

#[test]
fn accepted_write_is_not_repeated() {
    let mut rec = started(10, "42", "1.2.3.4");
    let calls = run_cycle_by_steps(&mut rec, Some("5.6.7.8"), true, None);
    assert_eq!(calls, vec![Action::ResolveIp, update_home("42", "5.6.7.8")]);
    assert_eq!(rec.record_value(), "5.6.7.8");
    let calls = run_cycle_by_steps(&mut rec, Some("5.6.7.8"), true, None);
    assert_eq!(calls, vec![Action::ResolveIp]);
}

#[test]
fn refused_write_keeps_the_cache_and_is_retried() {
    let mut rec = started(10, "42", "1.2.3.4");
    let calls = run_cycle_by_steps(&mut rec, Some("5.6.7.8"), false, None);
    assert_eq!(calls, vec![Action::ResolveIp, update_home("42", "5.6.7.8")]);
    assert_eq!(rec.record_id(), "42");
    assert_eq!(rec.record_value(), "1.2.3.4");
    assert_eq!(rec.ticks(), 1);
    let calls = run_cycle_by_steps(&mut rec, Some("5.6.7.8"), true, None);
    assert_eq!(calls, vec![Action::ResolveIp, update_home("42", "5.6.7.8")]);
    assert_eq!(rec.record_value(), "5.6.7.8");
}

#[test]
fn resync_comes_once_per_refresh_ticks_whatever_is_written() {
    let mut rec = started(4, "42", "1.2.3.4");
    let ips = ["1.2.3.4", "9.9.9.9", "9.9.9.9", "1.1.1.1"];
    for round in 0..3 {
        for tick in 1..=4u64 {
            let found = Record::A("42".to_string(), "1.2.3.4".to_string());
            let ip = ips[(tick as usize + round) % 4];
            let calls = run_cycle_by_steps(&mut rec, Some(ip), tick % 2 == 0, Some(found));
            let lookups = calls.iter().filter(|c| **c == lookup_home()).count();
            if tick < 4 {
                assert_eq!(lookups, 0);
                assert_eq!(rec.ticks(), tick);
            } else {
                assert_eq!(lookups, 1);
                assert_eq!(calls.last(), Some(&lookup_home()));
                assert_eq!(rec.ticks(), 0);
            }
        }
    }
}

#[test]
fn refresh_of_zero_resyncs_at_every_tick() {
    let mut rec = started(0, "42", "1.2.3.4");
    for _ in 0..3 {
        let found = Record::A("42".to_string(), "1.2.3.4".to_string());
        let calls = run_cycle_by_steps(&mut rec, Some("1.2.3.4"), true, Some(found));
        assert_eq!(calls, vec![Action::ResolveIp, lookup_home()]);
        assert_eq!(rec.ticks(), 0);
    }
}

#[test]
fn resync_replaces_identifier_and_value_together() {
    let mut rec = started(1, "42", "1.2.3.4");
    let drifted = Record::A("77".to_string(), "8.8.8.8".to_string());
    let calls = run_cycle_by_steps(&mut rec, Some("5.6.7.8"), true, Some(drifted));
    assert_eq!(
        calls,
        vec![Action::ResolveIp, update_home("42", "5.6.7.8"), lookup_home()]
    );
    assert_eq!(rec.record_id(), "77");
    assert_eq!(rec.record_value(), "8.8.8.8");
    assert_eq!(rec.ticks(), 0);
    let calls = run_cycle_by_steps(&mut rec, Some("5.6.7.8"), true, None);
    assert_eq!(calls[1], update_home("77", "5.6.7.8"));
}

#[test]
fn failed_resync_keeps_cache_and_count_and_is_retried() {
    let mut rec = started(2, "42", "1.2.3.4");
    run_cycle_by_steps(&mut rec, Some("1.2.3.4"), true, None);
    let calls = run_cycle_by_steps(&mut rec, Some("1.2.3.4"), true, None);
    assert_eq!(calls, vec![Action::ResolveIp, lookup_home()]);
    assert_eq!(rec.record_id(), "42");
    assert_eq!(rec.record_value(), "1.2.3.4");
    assert_eq!(rec.ticks(), 2);
    assert_eq!(rec.phase(), &Phase::AwaitingTick);

    let calls = run_cycle_by_steps(&mut rec, Some("1.2.3.4"), true, Some(Record::NotFound));
    assert_eq!(calls, vec![Action::ResolveIp, lookup_home()]);
    assert_eq!(rec.record_id(), "42");
    assert_eq!(rec.record_value(), "1.2.3.4");
    assert_eq!(rec.ticks(), 2);

    let found = Record::A("43".to_string(), "1.2.3.9".to_string());
    let calls = run_cycle_by_steps(&mut rec, Some("1.2.3.4"), true, Some(found));
    assert_eq!(calls, vec![Action::ResolveIp, lookup_home()]);
    assert_eq!(rec.record_id(), "43");
    assert_eq!(rec.record_value(), "1.2.3.9");
    assert_eq!(rec.ticks(), 0);
}

#[test]
fn event_out_of_turn_changes_nothing() {
    let mut rec = started(3, "42", "1.2.3.4");
    let all = [
        Event::IpResolved("5.6.7.8".to_string()),
        Event::IpUnavailable,
        Event::UpdateSucceeded,
        Event::UpdateFailed,
        Event::LookupCompleted(Record::A("1".to_string(), "2".to_string())),
        Event::LookupFailed,
    ];
    for event in all.iter() {
        assert_eq!(rec.step(event.clone()), None);
        assert_eq!(rec.phase(), &Phase::AwaitingTick);
        assert_eq!(rec.record_id(), "42");
        assert_eq!(rec.record_value(), "1.2.3.4");
        assert_eq!(rec.ticks(), 0);
    }
    assert_eq!(rec.step(Event::Tick), Some(Action::ResolveIp));
    assert_eq!(rec.step(Event::Tick), None);
    assert_eq!(rec.step(Event::UpdateSucceeded), None);
    assert_eq!(rec.step(Event::LookupFailed), None);
    assert_eq!(rec.phase(), &Phase::ResolvingIp);
    assert_eq!(
        rec.step(Event::IpResolved("5.6.7.8".to_string())),
        Some(update_home("42", "5.6.7.8"))
    );
    assert_eq!(rec.step(Event::IpUnavailable), None);
    assert_eq!(rec.step(Event::LookupFailed), None);
    assert_eq!(rec.phase(), &Phase::Updating("5.6.7.8".to_string()));
    assert_eq!(rec.pending(), update_home("42", "5.6.7.8"));
}

#[test]
fn pending_is_the_action_last_returned() {
    let mut rec = started(1, "42", "1.2.3.4");
    let events = [
        Event::Tick,
        Event::IpResolved("5.6.7.8".to_string()),
        Event::UpdateFailed,
        Event::LookupFailed,
        Event::Tick,
        Event::IpUnavailable,
        Event::LookupCompleted(Record::NotFound),
    ];
    for event in events.iter() {
        let action = rec.step(event.clone()).unwrap();
        assert_eq!(action, rec.pending());
    }
    assert_eq!(rec.pending(), Action::AwaitTick);
}

#[test]
fn library_cycle_agrees_with_stepping() {
    let ips = [None, Some("1.2.3.4"), Some("5.6.7.8")];
    let lookups = [
        None,
        Some(Record::NotFound),
        Some(Record::A("42".to_string(), "1.2.3.4".to_string())),
        Some(Record::A("77".to_string(), "5.6.7.8".to_string())),
    ];
    for refresh in 0..4u64 {
        for ip in ips.iter() {
            for write_ok in [false, true] {
                for lookup in lookups.iter() {
                    let mut stepped = started(refresh, "42", "1.2.3.4");
                    let mut run = started(refresh, "42", "1.2.3.4");
                    let answers = Answers {
                        ip: ip.map(|s| s.to_string()),
                        write_ok,
                        lookup: lookup.clone(),
                    };
                    for _ in 0..5 {
                        let expected = run_cycle_by_steps(&mut stepped, *ip, write_ok, lookup.clone());
                        let calls = run_cycle(&mut run, &answers);
                        assert_eq!(calls, expected);
                        assert_eq!(run.record_id(), stepped.record_id());
                        assert_eq!(run.record_value(), stepped.record_value());
                        assert_eq!(run.ticks(), stepped.ticks());
                        assert_eq!(run.phase(), &Phase::AwaitingTick);
                    }
                }
            }
        }
    }
}

#[test]
fn library_cycle_leaves_a_loop_in_mid_cycle_alone() {
    let mut rec = started(3, "42", "1.2.3.4");
    assert_eq!(rec.step(Event::Tick), Some(Action::ResolveIp));
    let answers = Answers { ip: Some("5.6.7.8".to_string()), write_ok: true, lookup: None };
    assert_eq!(run_cycle(&mut rec, &answers), Vec::new());
    assert_eq!(rec.phase(), &Phase::ResolvingIp);
    assert_eq!(rec.record_value(), "1.2.3.4");
    assert_eq!(rec.ticks(), 0);
}

#[test]
fn answers_report_each_action() {
    let found = Record::A("42".to_string(), "1.2.3.4".to_string());
    let good = Answers { ip: Some("1.2.3.4".to_string()), write_ok: true, lookup: Some(found.clone()) };
    let bad = Answers { ip: None, write_ok: false, lookup: None };
    let missing = Answers { ip: None, write_ok: false, lookup: Some(Record::NotFound) };
    assert_eq!(good.answer(&Action::AwaitTick), Event::Tick);
    assert_eq!(good.answer(&Action::ResolveIp), Event::IpResolved("1.2.3.4".to_string()));
    assert_eq!(bad.answer(&Action::ResolveIp), Event::IpUnavailable);
    assert_eq!(good.answer(&update_home("42", "9.9.9.9")), Event::UpdateSucceeded);
    assert_eq!(bad.answer(&update_home("42", "9.9.9.9")), Event::UpdateFailed);
    assert_eq!(good.answer(&lookup_home()), Event::LookupCompleted(found));
    assert_eq!(missing.answer(&lookup_home()), Event::LookupCompleted(Record::NotFound));
    assert_eq!(bad.answer(&lookup_home()), Event::LookupFailed);
}
