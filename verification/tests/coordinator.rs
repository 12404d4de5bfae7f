use local_feed::coordinator::replay;
use local_feed::coordinator::Action;
use local_feed::coordinator::Coordinator;
use local_feed::coordinator::Event;
use local_feed::coordinator::Phase;
use local_feed::coordinator::ShutdownReport;
use local_feed::coordinator::ShutdownStep;
use local_feed::coordinator::Stage;
use local_feed::coordinator::POLL_INTERVAL_MILLIS;

const NOTHING_FAILED: ShutdownReport =
    ShutdownReport { stop_server_failed: false, unregister_failed: false, join_failed: false };

fn finished(step: ShutdownStep, succeeded: bool) -> Event {
    Event::StepFinished { step, succeeded }
}

/// Gives the events to a fresh coordinator and collects what each called for.
fn run(events: &[Event]) -> (Coordinator, Vec<Option<Action>>) {
    replay(&events.to_vec())
}

/// Every sequence of the given length over a small alphabet of events.
fn all_sequences(length: usize) -> Vec<Vec<Event>> {
    let alphabet = [
        Event::FlagRead { raised: false },
        Event::FlagRead { raised: true },
        finished(ShutdownStep::StopServer, true),
        finished(ShutdownStep::StopServer, false),
        finished(ShutdownStep::UnregisterAdvertiser, true),
        finished(ShutdownStep::UnregisterAdvertiser, false),
        finished(ShutdownStep::JoinServer, true),
        finished(ShutdownStep::JoinServer, false),
    ];
    let mut sequences: Vec<Vec<Event>> = vec![vec![]];
    for _ in 0..length {
        let mut longer = Vec::new();
        for sequence in &sequences {
            for event in &alphabet {
                let mut next = sequence.clone();
                next.push(*event);
                longer.push(next);
            }
        }
        sequences = longer;
    }
    sequences
}

fn positions(actions: &[Option<Action>], wanted: Action) -> Vec<usize> {
    (0..actions.len()).filter(|i| actions[*i] == Some(wanted)).collect()
}

fn rank(phase: Phase) -> u8 {
    match phase {
        Phase::Running => 0,
        Phase::Stopping => 1,
        Phase::Stopped => 2,
    }
}

#[test]
fn poll_interval() {
    assert_eq!(POLL_INTERVAL_MILLIS, 100);
}

#[test]
fn starts_running_and_reads_the_flag_at_once() {
    let (coordinator, action) = Coordinator::start();
    assert_eq!(action, Action::Poll { after_millis: 0 });
    assert_eq!(coordinator.phase(), Phase::Running);
    assert_eq!(coordinator.stage(), Stage::Polling);
    assert_eq!(coordinator.report(), NOTHING_FAILED);
}

#[test]
fn keeps_polling_while_the_flag_is_down() {
    let (mut coordinator, _) = Coordinator::start();
    for _ in 0..5 {
        assert_eq!(
            coordinator.handle(Event::FlagRead { raised: false }),
            Some(Action::Poll { after_millis: 100 })
        );
        assert_eq!(coordinator.phase(), Phase::Running);
    }
}

#[test]
fn interrupt_while_idle_shuts_down_cleanly() {
    let (mut coordinator, first) = Coordinator::start();
    assert_eq!(first, Action::Poll { after_millis: 0 });
    assert_eq!(
        coordinator.handle(Event::FlagRead { raised: false }),
        Some(Action::Poll { after_millis: 100 })
    );
    assert_eq!(coordinator.phase(), Phase::Running);

    assert_eq!(
        coordinator.handle(Event::FlagRead { raised: true }),
        Some(Action::Perform(ShutdownStep::StopServer))
    );
    assert_eq!(coordinator.phase(), Phase::Stopping);
    assert_eq!(coordinator.stage(), Stage::Awaiting(ShutdownStep::StopServer));

    assert_eq!(
        coordinator.handle(finished(ShutdownStep::StopServer, true)),
        Some(Action::Perform(ShutdownStep::UnregisterAdvertiser))
    );
    assert_eq!(coordinator.phase(), Phase::Stopping);

    assert_eq!(
        coordinator.handle(finished(ShutdownStep::UnregisterAdvertiser, true)),
        Some(Action::Perform(ShutdownStep::JoinServer))
    );
    assert_eq!(coordinator.phase(), Phase::Stopping);

    assert_eq!(
        coordinator.handle(finished(ShutdownStep::JoinServer, true)),
        Some(Action::Exit { clean: true })
    );
    assert_eq!(coordinator.phase(), Phase::Stopped);
    assert_eq!(coordinator.stage(), Stage::Finished);
    assert_eq!(coordinator.report(), NOTHING_FAILED);
}

#[test]
fn replay_is_handling_one_event_after_the_other() {
    for events in all_sequences(4) {
        let (replayed, actions) = replay(&events);
        let (mut coordinator, _) = Coordinator::start();
        let stepwise: Vec<Option<Action>> =
            events.iter().map(|event| coordinator.handle(*event)).collect();
        assert_eq!(actions, stepwise);
        assert_eq!(replayed.stage(), coordinator.stage());
        assert_eq!(replayed.report(), coordinator.report());
        assert_eq!(replayed.phase(), coordinator.phase());
    }
}

#[test]
fn replay_of_nothing_is_the_start() {
    let (coordinator, actions) = replay(&vec![]);
    assert_eq!(actions, vec![]);
    assert_eq!(coordinator.phase(), Phase::Running);
    assert_eq!(coordinator.stage(), Stage::Polling);
}

#[test]
fn flag_raised_at_the_first_reading() {
    let (_, actions) = run(&[Event::FlagRead { raised: true }]);
    assert_eq!(actions, vec![Some(Action::Perform(ShutdownStep::StopServer))]);
}

#[test]
fn failed_stop_signal_does_not_hold_up_the_rest() {
    let (coordinator, actions) = run(&[
        Event::FlagRead { raised: true },
        finished(ShutdownStep::StopServer, false),
        finished(ShutdownStep::UnregisterAdvertiser, true),
        finished(ShutdownStep::JoinServer, true),
    ]);
    assert_eq!(
        actions,
        vec![
            Some(Action::Perform(ShutdownStep::StopServer)),
            Some(Action::Perform(ShutdownStep::UnregisterAdvertiser)),
            Some(Action::Perform(ShutdownStep::JoinServer)),
            Some(Action::Exit { clean: false }),
        ]
    );
    assert_eq!(
        coordinator.report(),
        ShutdownReport { stop_server_failed: true, unregister_failed: false, join_failed: false }
    );
    assert!(coordinator.report().has_failed(ShutdownStep::StopServer));
    assert!(!coordinator.report().has_failed(ShutdownStep::UnregisterAdvertiser));
    assert!(!coordinator.report().has_failed(ShutdownStep::JoinServer));
    assert!(!coordinator.report().is_clean());
    assert_eq!(coordinator.stage(), Stage::Finished);
    assert_eq!(coordinator.phase(), Phase::Stopping);
}

#[test]
fn failed_unregistration_does_not_hold_up_the_join() {
    let (coordinator, actions) = run(&[
        Event::FlagRead { raised: true },
        finished(ShutdownStep::StopServer, true),
        finished(ShutdownStep::UnregisterAdvertiser, false),
        finished(ShutdownStep::JoinServer, true),
    ]);
    assert_eq!(actions[2], Some(Action::Perform(ShutdownStep::JoinServer)));
    assert_eq!(actions[3], Some(Action::Exit { clean: false }));
    assert_eq!(
        coordinator.report(),
        ShutdownReport { stop_server_failed: false, unregister_failed: true, join_failed: false }
    );
    assert_eq!(coordinator.phase(), Phase::Stopping);
}

#[test]
fn failed_join_is_reported_at_the_exit() {
    let (coordinator, actions) = run(&[
        Event::FlagRead { raised: true },
        finished(ShutdownStep::StopServer, true),
        finished(ShutdownStep::UnregisterAdvertiser, true),
        finished(ShutdownStep::JoinServer, false),
    ]);
    assert_eq!(actions[3], Some(Action::Exit { clean: false }));
    assert_eq!(
        coordinator.report(),
        ShutdownReport { stop_server_failed: false, unregister_failed: false, join_failed: true }
    );
    assert_eq!(coordinator.phase(), Phase::Stopping);
}

#[test]
fn every_step_failing_still_runs_every_step() {
    let (coordinator, actions) = run(&[
        Event::FlagRead { raised: true },
        finished(ShutdownStep::StopServer, false),
        finished(ShutdownStep::UnregisterAdvertiser, false),
        finished(ShutdownStep::JoinServer, false),
    ]);
    assert_eq!(
        actions,
        vec![
            Some(Action::Perform(ShutdownStep::StopServer)),
            Some(Action::Perform(ShutdownStep::UnregisterAdvertiser)),
            Some(Action::Perform(ShutdownStep::JoinServer)),
            Some(Action::Exit { clean: false }),
        ]
    );
    assert_eq!(
        coordinator.report(),
        ShutdownReport { stop_server_failed: true, unregister_failed: true, join_failed: true }
    );
}

#[test]
fn flag_readings_after_the_raise_are_disregarded() {
    let (mut coordinator, _) = Coordinator::start();
    coordinator.handle(Event::FlagRead { raised: true });
    assert_eq!(coordinator.handle(Event::FlagRead { raised: false }), None);
    assert_eq!(coordinator.phase(), Phase::Stopping);
    assert_eq!(coordinator.stage(), Stage::Awaiting(ShutdownStep::StopServer));
    assert_eq!(coordinator.handle(Event::FlagRead { raised: true }), None);
    assert_eq!(coordinator.stage(), Stage::Awaiting(ShutdownStep::StopServer));
}

#[test]
fn step_reports_while_running_are_disregarded() {
    let (mut coordinator, _) = Coordinator::start();
    assert_eq!(coordinator.handle(finished(ShutdownStep::StopServer, true)), None);
    assert_eq!(coordinator.handle(finished(ShutdownStep::JoinServer, false)), None);
    assert_eq!(coordinator.phase(), Phase::Running);
    assert_eq!(coordinator.report(), NOTHING_FAILED);
}

#[test]
fn report_of_another_step_is_disregarded() {
    let (mut coordinator, _) = Coordinator::start();
    coordinator.handle(Event::FlagRead { raised: true });
    assert_eq!(coordinator.handle(finished(ShutdownStep::JoinServer, false)), None);
    assert_eq!(coordinator.handle(finished(ShutdownStep::UnregisterAdvertiser, false)), None);
    assert_eq!(coordinator.stage(), Stage::Awaiting(ShutdownStep::StopServer));
    assert_eq!(coordinator.report(), NOTHING_FAILED);
}

#[test]
fn second_report_of_a_step_does_not_repeat_it() {
    let (_, actions) = run(&[
        Event::FlagRead { raised: true },
        finished(ShutdownStep::StopServer, true),
        finished(ShutdownStep::StopServer, true),
        finished(ShutdownStep::StopServer, false),
    ]);
    assert_eq!(
        actions,
        vec![
            Some(Action::Perform(ShutdownStep::StopServer)),
            Some(Action::Perform(ShutdownStep::UnregisterAdvertiser)),
            None,
            None,
        ]
    );
}

#[test]
fn nothing_happens_after_the_end() {
    let (mut coordinator, _) = run(&[
        Event::FlagRead { raised: true },
        finished(ShutdownStep::StopServer, true),
        finished(ShutdownStep::UnregisterAdvertiser, true),
        finished(ShutdownStep::JoinServer, true),
    ]);
    for event in all_sequences(1).concat() {
        assert_eq!(coordinator.handle(event), None);
        assert_eq!(coordinator.phase(), Phase::Stopped);
        assert_eq!(coordinator.report(), NOTHING_FAILED);
    }
}

#[test]
fn stop_signal_is_called_for_at_most_once_in_every_run() {
    for events in all_sequences(5) {
        let (_, actions) = run(&events);
        for step in
            [ShutdownStep::StopServer, ShutdownStep::UnregisterAdvertiser, ShutdownStep::JoinServer]
        {
            assert!(positions(&actions, Action::Perform(step)).len() <= 1);
        }
        let exits = actions.iter().filter(|a| matches!(a, Some(Action::Exit { .. }))).count();
        assert!(exits <= 1);
    }
}

#[test]
fn steps_are_called_for_in_order_in_every_run() {
    for events in all_sequences(5) {
        let (_, actions) = run(&events);
        let stop = positions(&actions, Action::Perform(ShutdownStep::StopServer));
        let unregister = positions(&actions, Action::Perform(ShutdownStep::UnregisterAdvertiser));
        let join = positions(&actions, Action::Perform(ShutdownStep::JoinServer));
        if let Some(u) = unregister.first() {
            assert!(stop.first().unwrap() < u);
        }
        if let Some(j) = join.first() {
            assert!(unregister.first().unwrap() < j);
        }
        for (i, action) in actions.iter().enumerate() {
            if matches!(action, Some(Action::Exit { .. })) {
                assert!(*join.first().unwrap() < i);
                assert!(matches!(
                    events[i],
                    Event::StepFinished { step: ShutdownStep::JoinServer, .. }
                ));
            }
        }
    }
}

#[test]
fn raised_flag_is_never_taken_back_in_any_run() {
    for events in all_sequences(5) {
        let (mut coordinator, _) = Coordinator::start();
        let mut raised = false;
        let mut last_rank = rank(coordinator.phase());
        for event in events {
            let action = coordinator.handle(event);
            if raised {
                assert_ne!(coordinator.phase(), Phase::Running);
                assert!(!matches!(action, Some(Action::Poll { .. })));
                if matches!(event, Event::FlagRead { .. }) {
                    assert_eq!(action, None);
                }
            }
            if event == (Event::FlagRead { raised: true }) {
                raised = true;
            }
            assert!(last_rank <= rank(coordinator.phase()));
            last_rank = rank(coordinator.phase());
        }
    }
}
