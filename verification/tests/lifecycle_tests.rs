use asset_server::lifecycle::{Action, Event, Orchestrator, Phase, EXIT_CLEAN, EXIT_FAULT};
use asset_server::server::Listener;

fn running(timeout: u64) -> Orchestrator {
    let mut orchestrator = Orchestrator::new(timeout);
    assert_eq!(orchestrator.step(Event::Bound { main: true, observability: true }), Action::Serve);
    orchestrator
}

fn exited(listener: Listener, clean: bool) -> Event {
    Event::ListenerExited { listener, clean }
}

#[test]
fn starts_in_starting() {
    let orchestrator = Orchestrator::new(10);
    assert_eq!(
        orchestrator,
        Orchestrator {
            phase: Phase::Starting,
            main_up: false,
            observability_up: false,
            faulted: false,
            shutdown_timeout_seconds: 10,
        }
    );
    assert!(!orchestrator.is_accepting());
}

#[test]
fn exit_codes() {
    assert_eq!(EXIT_CLEAN, 0);
    assert_eq!(EXIT_FAULT, 1);
}

#[test]
fn runs_when_both_ports_are_bound() {
    let orchestrator = running(10);
    assert_eq!(orchestrator.phase, Phase::Running);
    assert!(orchestrator.main_up);
    assert!(orchestrator.observability_up);
    assert!(!orchestrator.faulted);
    assert!(orchestrator.is_accepting());
}

#[test]
fn bind_failure_is_fatal() {
    for (main, observability) in [(false, true), (true, false), (false, false)] {
        let mut orchestrator = Orchestrator::new(10);
        assert_eq!(orchestrator.step(Event::Bound { main, observability }), Action::Exit { code: 1 });
        assert_eq!(orchestrator.phase, Phase::Stopped);
        assert!(orchestrator.faulted);
        assert!(!orchestrator.main_up);
        assert!(!orchestrator.observability_up);
        assert!(!orchestrator.is_accepting());
    }
}

#[test]
fn signal_starts_the_drain_with_the_configured_timeout() {
    let mut orchestrator = running(25);
    assert_eq!(orchestrator.step(Event::TerminationSignal), Action::Drain { timeout_seconds: 25 });
    assert_eq!(orchestrator.phase, Phase::Draining);
    assert!(!orchestrator.is_accepting());
    assert!(orchestrator.main_up);
    assert!(orchestrator.observability_up);
    assert!(!orchestrator.faulted);
}

#[test]
fn clean_shutdown_exits_with_zero() {
    let mut orchestrator = running(10);
    orchestrator.step(Event::TerminationSignal);
    assert_eq!(orchestrator.step(exited(Listener::Main, true)), Action::Wait);
    assert_eq!(orchestrator.phase, Phase::Draining);
    assert_eq!(orchestrator.step(exited(Listener::Observability, true)), Action::Exit { code: 0 });
    assert_eq!(orchestrator.phase, Phase::Stopped);
    assert!(!orchestrator.faulted);
}

#[test]
fn fault_while_draining_exits_with_nonzero() {
    let mut orchestrator = running(10);
    orchestrator.step(Event::TerminationSignal);
    assert_eq!(orchestrator.step(exited(Listener::Observability, false)), Action::Wait);
    assert_eq!(orchestrator.step(exited(Listener::Main, true)), Action::Exit { code: 1 });
    assert_eq!(orchestrator.phase, Phase::Stopped);
    assert!(orchestrator.faulted);
}

#[test]
fn fault_while_running_drains_the_other_listener() {
    let mut orchestrator = running(7);
    assert_eq!(
        orchestrator.step(exited(Listener::Main, false)),
        Action::Drain { timeout_seconds: 7 }
    );
    assert_eq!(orchestrator.phase, Phase::Draining);
    assert!(!orchestrator.main_up);
    assert!(orchestrator.observability_up);
    assert!(orchestrator.faulted);
    assert!(!orchestrator.is_accepting());
    assert_eq!(orchestrator.step(exited(Listener::Observability, true)), Action::Exit { code: 1 });
    assert_eq!(orchestrator.phase, Phase::Stopped);
}

#[test]
fn clean_exit_while_running_drains_the_other_listener() {
    let mut orchestrator = running(7);
    assert_eq!(
        orchestrator.step(exited(Listener::Observability, true)),
        Action::Drain { timeout_seconds: 7 }
    );
    assert_eq!(orchestrator.phase, Phase::Draining);
    assert_eq!(orchestrator.step(exited(Listener::Main, true)), Action::Exit { code: 0 });
}

#[test]
fn stopped_is_terminal() {
    let mut orchestrator = running(10);
    orchestrator.step(Event::TerminationSignal);
    orchestrator.step(exited(Listener::Main, true));
    orchestrator.step(exited(Listener::Observability, true));
    let stopped = orchestrator;
    let events = [
        Event::Bound { main: true, observability: true },
        Event::Bound { main: false, observability: false },
        Event::TerminationSignal,
        exited(Listener::Main, true),
        exited(Listener::Main, false),
        exited(Listener::Observability, false),
    ];
    for event in events {
        assert_eq!(orchestrator.step(event), Action::Wait);
        assert_eq!(orchestrator, stopped);
    }
}

#[test]
fn events_without_meaning_change_nothing() {
    let mut starting = Orchestrator::new(10);
    let before = starting;
    assert_eq!(starting.step(Event::TerminationSignal), Action::Wait);
    assert_eq!(starting.step(exited(Listener::Main, false)), Action::Wait);
    assert_eq!(starting, before);

    let mut orchestrator = running(10);
    let before = orchestrator;
    assert_eq!(orchestrator.step(Event::Bound { main: false, observability: false }), Action::Wait);
    assert_eq!(orchestrator, before);

    orchestrator.step(Event::TerminationSignal);
    let before = orchestrator;
    assert_eq!(orchestrator.step(Event::TerminationSignal), Action::Wait);
    assert_eq!(orchestrator.step(Event::Bound { main: true, observability: true }), Action::Wait);
    assert_eq!(orchestrator, before);
}

#[test]
fn a_listener_ends_only_once() {
    let mut orchestrator = running(10);
    orchestrator.step(Event::TerminationSignal);
    orchestrator.step(exited(Listener::Main, true));
    let before = orchestrator;
    assert_eq!(orchestrator.step(exited(Listener::Main, false)), Action::Wait);
    assert_eq!(orchestrator, before);
    assert!(!orchestrator.faulted);
}
