//! The life of the two listeners as one unit: they start together, serve
//! together and stop together.
//!
//! The orchestrator decides; whoever runs the listeners reports what
//! happened as an [`Event`] and carries out the [`Action`] that comes back.

use vstd::prelude::*;
use crate::server::Listener;

verus! {

/// Where the server is in its life.
#[derive(Debug, Clone, Copy, PartialEq, Eq, Structural)]
pub enum Phase {
    /// The listeners are being bound.
    Starting,
    /// Both listeners accept connections.
    Running,
    /// No listener accepts connections; requests in flight may finish.
    Draining,
    /// Both listeners are gone. Nothing follows.
    Stopped,
}

/// Something that happened to the listeners.
#[derive(Debug, Clone, Copy, PartialEq, Eq, Structural)]
pub enum Event {
    /// Both bind attempts came back; each flag says whether its listener
    /// got its port.
    Bound { main: bool, observability: bool },
    /// The process was asked to terminate.
    TerminationSignal,
    /// A listener ended, cleanly or with a fault.
    ListenerExited { listener: Listener, clean: bool },
}

/// What is to be done next.
#[derive(Debug, Clone, Copy, PartialEq, Eq, Structural)]
pub enum Action {
    /// Let both listeners accept connections.
    Serve,
    /// Stop accepting on every listener that is still up, let the requests
    /// in flight finish, and close what is still open after the timeout.
    Drain { timeout_seconds: u64 },
    /// Leave the process with this exit code.
    Exit { code: u8 },
    /// Go on as before.
    Wait,
}

/// The state of the orchestrator.
#[derive(Debug, Clone, Copy, PartialEq, Eq, Structural)]
pub struct Orchestrator {
    /// The current phase.
    pub phase: Phase,
    /// Whether the main listener is up.
    pub main_up: bool,
    /// Whether the observability listener is up.
    pub observability_up: bool,
    /// Whether a bind failed or a listener ended with a fault.
    pub faulted: bool,
    /// The configured bound on draining, in seconds.
    pub shutdown_timeout_seconds: u64,
}

/// The exit code of a clean shutdown.
pub const EXIT_CLEAN: u8 = 0;

/// The exit code after a bind failure or a listener's fault.
pub const EXIT_FAULT: u8 = 1;

/// The exit code for a server that has or has not seen a fault.
pub open spec fn exit_code(faulted: bool) -> u8 {
    if faulted {
        1
    } else {
        0
    }
}

/// How far a phase is along the way from `Starting` to `Stopped`.
pub open spec fn rank(phase: Phase) -> nat {
    match phase {
        Phase::Starting => 0,
        Phase::Running => 1,
        Phase::Draining => 2,
        Phase::Stopped => 3,
    }
}

impl Orchestrator {
    /// The flags fit the phase: no listener is up before or after the
    /// server runs, both are up while it runs, at least one while it
    /// drains, and a fault cannot have happened before the start.
    pub open spec fn wf(self) -> bool {
        match self.phase {
            Phase::Starting => !self.main_up && !self.observability_up && !self.faulted,
            Phase::Running => self.main_up && self.observability_up && !self.faulted,
            Phase::Draining => self.main_up || self.observability_up,
            Phase::Stopped => !self.main_up && !self.observability_up,
        }
    }

    /// Whether new connections are accepted.
    pub open spec fn accepting(self) -> bool {
        self.phase == Phase::Running
    }

    /// The state with `listener` marked as gone, and with the fault
    /// remembered if it did not end cleanly.
    pub open spec fn without(self, listener: Listener, clean: bool) -> Orchestrator {
        Orchestrator {
            main_up: self.main_up && listener != Listener::Main,
            observability_up: self.observability_up && listener != Listener::Observability,
            faulted: self.faulted || !clean,
            ..self
        }
    }

    /// Whether `listener` is up.
    pub open spec fn up(self, listener: Listener) -> bool {
        match listener {
            Listener::Main => self.main_up,
            Listener::Observability => self.observability_up,
        }
    }

    /// The state after `event`, and what is to be done.
    ///
    /// - While starting, the bind results decide: with both ports the
    ///   server runs; with a port missing it stops with a fault.
    /// - While running, a termination signal starts the drain, and so does
    ///   a listener that ends, for the other one. A listener that ends
    ///   with a fault leaves the fault behind.
    /// - While draining, the server waits for the listeners that are still
    ///   up; when the last one has ended it stops, with the exit code of a
    ///   fault if there was one and that of a clean shutdown if not.
    /// - An event that has no meaning in the phase changes nothing.
    pub open spec fn next(self, event: Event) -> (Orchestrator, Action) {
        match (self.phase, event) {
            (Phase::Starting, Event::Bound { main, observability }) => if main && observability {
                (
                    Orchestrator {
                        phase: Phase::Running,
                        main_up: true,
                        observability_up: true,
                        ..self
                    },
                    Action::Serve,
                )
            } else {
                (
                    Orchestrator { phase: Phase::Stopped, faulted: true, ..self },
                    Action::Exit { code: exit_code(true) },
                )
            },
            (Phase::Running, Event::TerminationSignal) => (
                Orchestrator { phase: Phase::Draining, ..self },
                Action::Drain { timeout_seconds: self.shutdown_timeout_seconds },
            ),
            (Phase::Running, Event::ListenerExited { listener, clean }) => if self.up(listener) {
                self.after_exit(listener, clean, Action::Drain {
                    timeout_seconds: self.shutdown_timeout_seconds,
                })
            } else {
                (self, Action::Wait)
            },
            (Phase::Draining, Event::ListenerExited { listener, clean }) => if self.up(listener) {
                self.after_exit(listener, clean, Action::Wait)
            } else {
                (self, Action::Wait)
            },
            _ => (self, Action::Wait),
        }
    }

    /// The state after `listener`, which was up, has ended: stopped if it
    /// was the last one, draining otherwise, with `otherwise` to be done.
    pub open spec fn after_exit(self, listener: Listener, clean: bool, otherwise: Action) -> (
        Orchestrator,
        Action,
    ) {
        let rest = self.without(listener, clean);
        if !rest.main_up && !rest.observability_up {
            (
                Orchestrator { phase: Phase::Stopped, ..rest },
                Action::Exit { code: exit_code(rest.faulted) },
            )
        } else {
            (Orchestrator { phase: Phase::Draining, ..rest }, otherwise)
        }
    }

    /// An orchestrator that is about to bind its listeners.
    pub fn new(shutdown_timeout_seconds: u64) -> (orchestrator: Orchestrator)
        ensures
            orchestrator == (Orchestrator {
                phase: Phase::Starting,
                main_up: false,
                observability_up: false,
                faulted: false,
                shutdown_timeout_seconds,
            }),
            orchestrator.wf(),
    {
        Orchestrator {
            phase: Phase::Starting,
            main_up: false,
            observability_up: false,
            faulted: false,
            shutdown_timeout_seconds,
        }
    }

    /// Takes note of `event` and says what is to be done.
    pub fn step(&mut self, event: Event) -> (action: Action)
        ensures
            (*final(self), action) == old(self).next(event),
            old(self).wf() ==> final(self).wf(),
    {
        let timeout: u64 = self.shutdown_timeout_seconds;
        match (self.phase, event) {
            (Phase::Starting, Event::Bound { main, observability }) => {
                if main && observability {
                    self.phase = Phase::Running;
                    self.main_up = true;
                    self.observability_up = true;
                    Action::Serve
                } else {
                    self.phase = Phase::Stopped;
                    self.faulted = true;
                    Action::Exit { code: EXIT_FAULT }
                }
            },
            (Phase::Running, Event::TerminationSignal) => {
                self.phase = Phase::Draining;
                Action::Drain { timeout_seconds: timeout }
            },
            (Phase::Running, Event::ListenerExited { listener, clean }) => {
                self.exit(listener, clean, Action::Drain { timeout_seconds: timeout })
            },
            (Phase::Draining, Event::ListenerExited { listener, clean }) => {
                self.exit(listener, clean, Action::Wait)
            },
            _ => Action::Wait,
        }
    }

    fn exit(&mut self, listener: Listener, clean: bool, otherwise: Action) -> (action: Action)
        ensures
            (*final(self), action) == if old(self).up(listener) {
                old(self).after_exit(listener, clean, otherwise)
            } else {
                (*old(self), Action::Wait)
            },
    {
        let was_up: bool = match listener {
            Listener::Main => self.main_up,
            Listener::Observability => self.observability_up,
        };
        if !was_up {
            return Action::Wait;
        }
        match listener {
            Listener::Main => {
                self.main_up = false;
            },
            Listener::Observability => {
                self.observability_up = false;
            },
        }
        if !clean {
            self.faulted = true;
        }
        if !self.main_up && !self.observability_up {
            self.phase = Phase::Stopped;
            Action::Exit { code: if self.faulted { EXIT_FAULT } else { EXIT_CLEAN } }
        } else {
            self.phase = Phase::Draining;
            otherwise
        }
    }

    /// Whether new connections are accepted: only while running.
    pub fn is_accepting(&self) -> (accepting: bool)
        ensures
            accepting == self.accepting(),
    {
        match self.phase {
            Phase::Running => true,
            _ => false,
        }
    }
}

/// The phases are passed in order: no event takes the server back, and
/// nothing follows `Stopped`.
pub proof fn lemma_phases_only_advance(state: Orchestrator, event: Event)
    ensures
        rank(state.phase) <= rank(state.next(event).0.phase),
        state.phase == Phase::Stopped ==> state.next(event) == (state, Action::Wait),
{
}

/// A termination signal that arrives while the server runs stops the
/// accepting of new connections on the spot and asks for a drain that is
/// bounded by the configured timeout. The listeners stay up, so that the
/// requests in flight can finish.
pub proof fn lemma_signal_starts_drain(state: Orchestrator)
    requires
        state.wf(),
        state.phase == Phase::Running,
    ensures
        !state.next(Event::TerminationSignal).0.accepting(),
        state.next(Event::TerminationSignal).0.phase == Phase::Draining,
        state.next(Event::TerminationSignal).0.main_up,
        state.next(Event::TerminationSignal).0.observability_up,
        state.next(Event::TerminationSignal).1 == (Action::Drain {
            timeout_seconds: state.shutdown_timeout_seconds,
        }),
{
}

/// Once the server has left `Running` it never accepts connections again.
pub proof fn lemma_no_accepting_after_drain(state: Orchestrator, event: Event)
    requires
        rank(state.phase) >= 2,
    ensures
        !state.next(event).0.accepting(),
{
}

/// A fault is never forgotten, and the exit code tells of it: the server
/// leaves with code 0 only if no bind failed and no listener ended with a
/// fault, and with a code other than 0 otherwise.
pub proof fn lemma_exit_code_reflects_faults(state: Orchestrator, event: Event)
    ensures
        state.faulted ==> state.next(event).0.faulted,
        state.next(event).1 matches Action::Exit { code } ==> {
            &&& state.next(event).0.phase == Phase::Stopped
            &&& (code == 0 <==> !state.next(event).0.faulted)
        },
        event matches Event::ListenerExited { listener, clean } && !clean && state.up(listener) && (
        state.phase == Phase::Running || state.phase == Phase::Draining) ==> state.next(
            event,
        ).0.faulted,
        event matches Event::Bound { main, observability } && state.phase == Phase::Starting && !(
        main && observability) ==> state.next(event).1 == (Action::Exit { code: 1 }),
{
}

/// When one listener ends while the server runs, the other one is not cut
/// off: it is asked to drain, and the server stops only after it has ended
/// too.
pub proof fn lemma_sibling_gets_to_drain(state: Orchestrator, listener: Listener, clean: bool)
    requires
        state.wf(),
        state.phase == Phase::Running,
    ensures
        state.next(Event::ListenerExited { listener, clean }).0.phase == Phase::Draining,
        state.next(Event::ListenerExited { listener, clean }).1 == (Action::Drain {
            timeout_seconds: state.shutdown_timeout_seconds,
        }),
{
}

} // verus!
