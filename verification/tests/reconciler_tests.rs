use route_pin::reconciler::{
    classify_install, step, ReconcilerAction, ReconcilerInput, ReconcilerState, RepairRecord,
    RouteChange, RouteError, Transition,
};
use route_pin::route::{
    poll_tick, route_diverges, DesiredRoute, PollAction, PollObservation, RouteEntry,
    POLL_INTERVAL_SECS,
};

fn entry(destination: &str, gateway: Option<&str>) -> RouteEntry {
    RouteEntry { destination: destination.to_string(), gateway: gateway.map(|g| g.to_string()) }
}

fn deleted(destination: &str) -> ReconcilerInput {
    ReconcilerInput::Change(RouteChange::Deleted(entry(destination, Some("10.0.0.1"))))
}

/// A routing table that holds at most one default route and refuses a second.
struct Table {
    default_route: Option<RouteEntry>,
    writable: bool,
    installs: u32,
}

impl Table {
    fn install(&mut self, route: &DesiredRoute) -> Result<(), RouteError> {
        self.installs += 1;
        if !self.writable {
            return Err(RouteError::PermissionDenied);
        }
        if self.default_route.is_some() {
            return Err(RouteError::AlreadyExists);
        }
        self.default_route = Some(entry(route.destination(), Some(route.gateway())));
        Ok(())
    }

    fn observe(&self) -> PollObservation {
        match &self.default_route {
            Some(found) => PollObservation::Present(found.clone()),
            None => PollObservation::Absent,
        }
    }
}

#[test]
fn reconciler_starts_by_subscribing() {
    let state = ReconcilerState::start();
    assert_eq!(state, ReconcilerState::Subscribing);
    assert_eq!(state.awaits(), ReconcilerAction::Subscribe);
    assert_eq!(ReconcilerState::Installing.awaits(), ReconcilerAction::Install);
    assert_eq!(ReconcilerState::Listening { repairs: 3 }.awaits(), ReconcilerAction::AwaitChange);
    assert_eq!(ReconcilerState::Repairing { repairs: 3 }.awaits(), ReconcilerAction::Install);
}

#[test]
fn subscription_is_followed_by_one_install_whose_answer_is_ignored() {
    let t = step(ReconcilerState::Subscribing, &ReconcilerInput::Subscribed, 200);
    assert_eq!(
        t,
        Transition { next: ReconcilerState::Installing, action: ReconcilerAction::Install, record: None }
    );
    for answer in [
        Ok(()),
        Err(RouteError::PermissionDenied),
        Err(RouteError::AlreadyExists),
        Err(RouteError::Other),
    ] {
        let t = step(ReconcilerState::Installing, &ReconcilerInput::Installed(answer), 200);
        assert_eq!(
            t,
            Transition {
                next: ReconcilerState::Listening { repairs: 0 },
                action: ReconcilerAction::AwaitChange,
                record: None,
            }
        );
    }
}

#[test]
fn added_and_changed_entries_call_for_nothing() {
    for change in [
        RouteChange::Added(entry("0.0.0.0", Some("10.0.0.1"))),
        RouteChange::Changed(entry("0.0.0.0", Some("10.0.0.9"))),
        RouteChange::Added(entry("10.1.0.0", None)),
    ] {
        let t = step(ReconcilerState::Listening { repairs: 4 }, &ReconcilerInput::Change(change), 200);
        assert_eq!(
            t,
            Transition {
                next: ReconcilerState::Listening { repairs: 4 },
                action: ReconcilerAction::AwaitChange,
                record: None,
            }
        );
    }
}

#[test]
fn any_deleted_entry_calls_for_an_install() {
    for destination in ["0.0.0.0", "10.1.0.0", "fe80::", ""] {
        let t = step(ReconcilerState::Listening { repairs: 2 }, &deleted(destination), 200);
        assert_eq!(
            t,
            Transition {
                next: ReconcilerState::Repairing { repairs: 2 },
                action: ReconcilerAction::Install,
                record: None,
            }
        );
    }
}

#[test]
fn successful_repair_is_counted_and_recorded() {
    let t = step(ReconcilerState::Repairing { repairs: 2 }, &ReconcilerInput::Installed(Ok(())), 200);
    assert_eq!(
        t,
        Transition {
            next: ReconcilerState::Listening { repairs: 3 },
            action: ReconcilerAction::AwaitChange,
            record: Some(RepairRecord::Repaired { earlier: 2 }),
        }
    );
}

#[test]
fn permission_denied_is_recorded_and_listening_goes_on() {
    let t = step(ReconcilerState::Listening { repairs: 0 }, &deleted("0.0.0.0"), 200);
    assert_eq!(t.action, ReconcilerAction::Install);
    let t = step(t.next, &ReconcilerInput::Installed(Err(RouteError::PermissionDenied)), 200);
    assert_eq!(
        t,
        Transition {
            next: ReconcilerState::Listening { repairs: 1 },
            action: ReconcilerAction::AwaitChange,
            record: Some(RepairRecord::PermissionDenied),
        }
    );
}

#[test]
fn existing_route_is_no_failure() {
    let t = step(ReconcilerState::Listening { repairs: 5 }, &deleted("0.0.0.0"), 200);
    assert_eq!(t.action, ReconcilerAction::Install);
    let found = step(t.next, &ReconcilerInput::Installed(Err(RouteError::AlreadyExists)), 200);
    assert_eq!(
        found,
        Transition {
            next: ReconcilerState::Listening { repairs: 6 },
            action: ReconcilerAction::AwaitChange,
            record: None,
        }
    );
    let installed = step(t.next, &ReconcilerInput::Installed(Ok(())), 200);
    assert_eq!(found.next, installed.next);
    assert_eq!(found.action, installed.action);
}

#[test]
fn other_failure_is_recorded_and_listening_goes_on() {
    let t = step(
        ReconcilerState::Repairing { repairs: 1 },
        &ReconcilerInput::Installed(Err(RouteError::Other)),
        200,
    );
    assert_eq!(
        t,
        Transition {
            next: ReconcilerState::Listening { repairs: 2 },
            action: ReconcilerAction::AwaitChange,
            record: Some(RepairRecord::Failed),
        }
    );
}

#[test]
fn install_answers_are_sorted() {
    assert_eq!(classify_install(&Ok(()), 7), Some(RepairRecord::Repaired { earlier: 7 }));
    assert_eq!(
        classify_install(&Err(RouteError::PermissionDenied), 7),
        Some(RepairRecord::PermissionDenied)
    );
    assert_eq!(classify_install(&Err(RouteError::AlreadyExists), 7), None);
    assert_eq!(classify_install(&Err(RouteError::Other), 7), Some(RepairRecord::Failed));
}

#[test]
fn end_of_stream_leads_to_a_fresh_subscription_and_install() {
    let t = step(ReconcilerState::Listening { repairs: 9 }, &ReconcilerInput::StreamEnded, 200);
    assert_eq!(
        t,
        Transition { next: ReconcilerState::Subscribing, action: ReconcilerAction::Subscribe, record: None }
    );
    let t = step(t.next, &ReconcilerInput::Subscribed, 200);
    assert_eq!(t.action, ReconcilerAction::Install);
    let t = step(t.next, &ReconcilerInput::Installed(Err(RouteError::Other)), 200);
    assert_eq!(t.next, ReconcilerState::Listening { repairs: 0 });
    assert_eq!(t.action, ReconcilerAction::AwaitChange);
}

#[test]
fn subscription_serves_no_more_repairs_than_the_limit() {
    for limit in [1, 2, 3, 200] {
        let mut state = ReconcilerState::Listening { repairs: 0 };
        let mut installs = 0;
        loop {
            let t = step(state, &deleted("0.0.0.0"), limit);
            assert_eq!(t.action, ReconcilerAction::Install);
            installs += 1;
            let t = step(t.next, &ReconcilerInput::Installed(Ok(())), limit);
            assert_eq!(t.record, Some(RepairRecord::Repaired { earlier: installs - 1 }));
            state = t.next;
            if t.action == ReconcilerAction::Subscribe {
                break;
            }
            assert_eq!(state, ReconcilerState::Listening { repairs: installs });
        }
        assert_eq!(installs as i32, limit);
        assert_eq!(state, ReconcilerState::Subscribing);
    }
}

#[test]
fn failed_repairs_count_towards_the_limit() {
    let answers = [
        Err(RouteError::PermissionDenied),
        Err(RouteError::AlreadyExists),
        Err(RouteError::Other),
    ];
    let mut state = ReconcilerState::Listening { repairs: 0 };
    for (i, answer) in answers.into_iter().enumerate() {
        let t = step(state, &deleted("0.0.0.0"), 3);
        assert_eq!(t.next, ReconcilerState::Repairing { repairs: i as u32 });
        assert_eq!(t.action, ReconcilerAction::Install);
        let t = step(t.next, &ReconcilerInput::Installed(answer), 3);
        state = t.next;
    }
    assert_eq!(state, ReconcilerState::Subscribing);
}

#[test]
fn answer_that_reaches_the_limit_renews_the_subscription() {
    let t = step(ReconcilerState::Repairing { repairs: 0 }, &ReconcilerInput::Installed(Ok(())), 1);
    assert_eq!(
        t,
        Transition {
            next: ReconcilerState::Subscribing,
            action: ReconcilerAction::Subscribe,
            record: Some(RepairRecord::Repaired { earlier: 0 }),
        }
    );
    let t = step(
        ReconcilerState::Repairing { repairs: 0 },
        &ReconcilerInput::Installed(Err(RouteError::PermissionDenied)),
        1,
    );
    assert_eq!(
        t,
        Transition {
            next: ReconcilerState::Subscribing,
            action: ReconcilerAction::Subscribe,
            record: Some(RepairRecord::PermissionDenied),
        }
    );
    let t = step(
        ReconcilerState::Repairing { repairs: 198 },
        &ReconcilerInput::Installed(Ok(())),
        200,
    );
    assert_eq!(t.next, ReconcilerState::Listening { repairs: 199 });
    let t = step(
        ReconcilerState::Repairing { repairs: 199 },
        &ReconcilerInput::Installed(Ok(())),
        200,
    );
    assert_eq!(t.next, ReconcilerState::Subscribing);
    assert_eq!(t.action, ReconcilerAction::Subscribe);
}

#[test]
fn without_repairs_to_serve_a_deletion_renews_the_subscription() {
    let renewal =
        Transition { next: ReconcilerState::Subscribing, action: ReconcilerAction::Subscribe, record: None };
    for limit in [0, -1, i32::MIN] {
        let t = step(ReconcilerState::Listening { repairs: 0 }, &deleted("0.0.0.0"), limit);
        assert_eq!(t, renewal);
        let t = step(t.next, &ReconcilerInput::Subscribed, limit);
        assert_eq!(t.action, ReconcilerAction::Install);
        let t = step(t.next, &ReconcilerInput::Installed(Ok(())), limit);
        assert_eq!(t.next, ReconcilerState::Listening { repairs: 0 });
    }
    let t = step(ReconcilerState::Listening { repairs: 7 }, &deleted("0.0.0.0"), 7);
    assert_eq!(t, renewal);
    let t = step(ReconcilerState::Listening { repairs: 6 }, &deleted("0.0.0.0"), 7);
    assert_eq!(t.next, ReconcilerState::Repairing { repairs: 6 });
}

#[test]
fn added_and_changed_entries_never_end_the_listening() {
    let added = ReconcilerInput::Change(RouteChange::Added(entry("10.1.0.0", None)));
    let changed = ReconcilerInput::Change(RouteChange::Changed(entry("0.0.0.0", Some("10.0.0.9"))));
    for limit in [-1, 0, 1, 200] {
        for input in [&added, &changed] {
            let t = step(ReconcilerState::Listening { repairs: 0 }, input, limit);
            assert_eq!(
                t,
                Transition {
                    next: ReconcilerState::Listening { repairs: 0 },
                    action: ReconcilerAction::AwaitChange,
                    record: None,
                }
            );
        }
    }
}

#[test]
fn counter_does_not_overflow() {
    let t = step(
        ReconcilerState::Repairing { repairs: u32::MAX },
        &ReconcilerInput::Installed(Ok(())),
        i32::MAX,
    );
    assert_eq!(t.next, ReconcilerState::Subscribing);
    assert_eq!(t.record, Some(RepairRecord::Repaired { earlier: u32::MAX }));
    let t = step(
        ReconcilerState::Repairing { repairs: i32::MAX as u32 - 2 },
        &ReconcilerInput::Installed(Ok(())),
        i32::MAX,
    );
    assert_eq!(t.next, ReconcilerState::Listening { repairs: i32::MAX as u32 - 1 });
    let t = step(
        ReconcilerState::Repairing { repairs: i32::MAX as u32 - 1 },
        &ReconcilerInput::Installed(Ok(())),
        i32::MAX,
    );
    assert_eq!(t.next, ReconcilerState::Subscribing);
    let t = step(ReconcilerState::Listening { repairs: u32::MAX }, &deleted("0.0.0.0"), i32::MAX);
    assert_eq!(t.next, ReconcilerState::Subscribing);
}

#[test]
fn input_that_is_not_awaited_changes_nothing() {
    let cases = [
        (ReconcilerState::Subscribing, ReconcilerInput::StreamEnded),
        (ReconcilerState::Subscribing, ReconcilerInput::Installed(Ok(()))),
        (ReconcilerState::Installing, ReconcilerInput::Subscribed),
        (ReconcilerState::Installing, deleted("0.0.0.0")),
        (ReconcilerState::Listening { repairs: 1 }, ReconcilerInput::Subscribed),
        (ReconcilerState::Listening { repairs: 1 }, ReconcilerInput::Installed(Ok(()))),
        (ReconcilerState::Repairing { repairs: 1 }, ReconcilerInput::StreamEnded),
        (ReconcilerState::Repairing { repairs: 1 }, deleted("0.0.0.0")),
    ];
    for (state, input) in cases {
        let t = step(state, &input, 200);
        assert_eq!(t, Transition { next: state, action: state.awaits(), record: None });
    }
}

#[test]
fn poll_rests_on_the_desired_route() {
    let desired = DesiredRoute::new("10.0.0.1".to_string());
    let found = entry("0.0.0.0", Some("10.0.0.1"));
    assert!(!route_diverges(&found, &desired));
    assert_eq!(poll_tick(&PollObservation::Present(found), &desired), PollAction::Rest);
}

#[test]
fn poll_repairs_a_route_that_diverges() {
    let desired = DesiredRoute::new("10.0.0.1".to_string());
    for found in [
        entry("0.0.0.0", Some("10.0.0.2")),
        entry("0.0.0.0", Some("10.0.0.10")),
        entry("0.0.0.0", Some("")),
        entry("0.0.0.0", None),
        entry("10.0.0.0", Some("10.0.0.1")),
        entry("::", Some("10.0.0.1")),
        entry("", Some("10.0.0.1")),
    ] {
        assert!(route_diverges(&found, &desired));
        assert_eq!(poll_tick(&PollObservation::Present(found), &desired), PollAction::Install);
    }
}

#[test]
fn poll_repairs_a_missing_route_and_gives_up_on_a_failed_query() {
    let desired = DesiredRoute::new("10.0.0.1".to_string());
    assert_eq!(poll_tick(&PollObservation::Absent, &desired), PollAction::Install);
    assert_eq!(poll_tick(&PollObservation::QueryFailed, &desired), PollAction::Abort);
    assert_eq!(POLL_INTERVAL_SECS, 1);
}

#[test]
fn deleted_route_is_installed_once_and_the_poll_then_rests() {
    let desired = DesiredRoute::new("10.0.0.1".to_string());
    let mut table = Table { default_route: None, writable: true, installs: 0 };

    let t = step(ReconcilerState::start(), &ReconcilerInput::Subscribed, 200);
    assert_eq!(t.action, ReconcilerAction::Install);
    let t = step(t.next, &ReconcilerInput::Installed(table.install(&desired)), 200);
    assert_eq!(t.next, ReconcilerState::Listening { repairs: 0 });
    assert_eq!(poll_tick(&table.observe(), &desired), PollAction::Rest);

    let gone = table.default_route.take().unwrap();
    assert_eq!(poll_tick(&table.observe(), &desired), PollAction::Install);
    let before = table.installs;
    let t = step(t.next, &ReconcilerInput::Change(RouteChange::Deleted(gone)), 200);
    assert_eq!(t.action, ReconcilerAction::Install);
    let t = step(t.next, &ReconcilerInput::Installed(table.install(&desired)), 200);
    assert_eq!(t.action, ReconcilerAction::AwaitChange);
    assert_eq!(t.next, ReconcilerState::Listening { repairs: 1 });
    assert_eq!(t.record, Some(RepairRecord::Repaired { earlier: 0 }));
    assert_eq!(table.installs, before + 1);
    assert_eq!(poll_tick(&table.observe(), &desired), PollAction::Rest);
}

#[test]
fn second_install_of_the_same_route_finds_it_in_place() {
    let desired = DesiredRoute::new("10.0.0.1".to_string());
    let mut table = Table { default_route: None, writable: true, installs: 0 };
    assert_eq!(table.install(&desired), Ok(()));
    let after_first = table.observe();
    let second = table.install(&desired);
    assert_eq!(second, Err(RouteError::AlreadyExists));
    assert_eq!(poll_tick(&after_first, &desired), PollAction::Rest);
    assert_eq!(poll_tick(&table.observe(), &desired), PollAction::Rest);
    let t = step(ReconcilerState::Repairing { repairs: 0 }, &ReconcilerInput::Installed(second), 200);
    assert_eq!(t.record, None);
    assert_eq!(t.next, ReconcilerState::Listening { repairs: 1 });
}

#[test]
fn table_that_cannot_be_written_is_reported_each_time() {
    let desired = DesiredRoute::new("10.0.0.1".to_string());
    let mut table = Table { default_route: None, writable: false, installs: 0 };
    let mut state = ReconcilerState::Listening { repairs: 0 };
    for served in 1..=5 {
        let t = step(state, &deleted("0.0.0.0"), 200);
        let t = step(t.next, &ReconcilerInput::Installed(table.install(&desired)), 200);
        assert_eq!(t.record, Some(RepairRecord::PermissionDenied));
        assert_eq!(t.next, ReconcilerState::Listening { repairs: served });
        state = t.next;
    }
    assert_eq!(table.installs, 5);
}

#[test]
fn whole_run_asks_for_no_more_repairing_installs_than_the_limit() {
    for limit in [-3, 0, 1, 2, 5] {
        let mut state = ReconcilerState::start();
        let mut action = state.awaits();
        let mut repairing = 0;
        let mut subscriptions = 0;
        let mut answers = [Ok(()), Err(RouteError::Other), Err(RouteError::AlreadyExists)]
            .into_iter()
            .cycle();
        for _ in 0..400 {
            let input = match action {
                ReconcilerAction::Subscribe => {
                    subscriptions += 1;
                    repairing = 0;
                    ReconcilerInput::Subscribed
                }
                ReconcilerAction::Install => {
                    if let ReconcilerState::Repairing { .. } = state {
                        repairing += 1;
                    }
                    ReconcilerInput::Installed(answers.next().unwrap())
                }
                ReconcilerAction::AwaitChange => deleted("0.0.0.0"),
            };
            let t = step(state, &input, limit);
            state = t.next;
            action = t.action;
            assert!(repairing <= limit.max(0));
        }
        assert!(subscriptions > 1);
    }
}
