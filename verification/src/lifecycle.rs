//! The life of the application, as the host drives it.
//!
//! The host starts the shell, runs the startup hook once, and then hands
//! window events and command invocations to it one at a time. Each step maps
//! the current phase and one event to the next phase and to the one thing the
//! host has to do about it. The shell never acts by itself.

use vstd::prelude::*;
use crate::window::{
    guard_answer, on_window_event, setup, setup_outcome, CloseDecision, HookState, StartupError,
    WindowEvent,
};

verus! {

/// The status with which the process ends when the exit command is invoked.
pub const EXIT_SUCCESS: i32 = 0;

/// Where the application stands.
#[derive(Clone, Copy, Debug, PartialEq, Eq, Structural)]
pub enum Phase {
    /// The startup hook has not run yet.
    Starting,
    /// Startup is done and the event loop is turning.
    Running,
    /// Startup was given up; the event loop was never entered.
    StartupFailed,
    /// The process has ended with this status.
    Exited { status: i32 },
}

/// A command that the user interface can invoke.
#[derive(Clone, Copy, Debug, PartialEq, Eq, Structural)]
pub enum Command {
    Greet,
    ForceCloseApp,
}

/// What the host hands to the shell.
#[derive(Clone, Copy, Debug, PartialEq, Eq, Structural)]
pub enum Event {
    /// The startup hook runs; the host says whether it found the main window.
    Setup { main_window_found: bool },
    /// An event on the main window.
    Window(WindowEvent),
    /// The user interface invokes a command.
    Invoke(Command),
}

/// What the host has to do after a step.
#[derive(Clone, Copy, Debug, PartialEq, Eq, Structural)]
pub enum Action {
    /// Nothing: the event is not for the shell, or nobody is left to see it.
    Nothing,
    /// Attach the close listener to the main window and enter the event loop.
    EnterEventLoop,
    /// Give startup up with this error.
    AbortStartup(StartupError),
    /// Mark the close request as handled, so that the window stays open.
    PreventClose,
    /// Run the greeter on the name that came with the invocation.
    RunGreeter,
    /// End the process at once with this status.
    Exit { status: i32 },
}

/// The outcome of one step.
#[derive(Clone, Copy, Debug, PartialEq, Eq, Structural)]
pub struct Transition {
    pub next: Phase,
    pub action: Action,
}

impl Phase {
    /// The close listener is attached exactly while the event loop turns.
    pub open spec fn hook_state(self) -> HookState {
        if self == Phase::Running {
            HookState::Registered
        } else {
            HookState::Unregistered
        }
    }

    pub fn hook(&self) -> (hook: HookState)
        ensures
            hook == self.hook_state(),
    {
        match self {
            Phase::Running => HookState::Registered,
            _ => HookState::Unregistered,
        }
    }

    /// The step relation, written out:
    /// - before startup only the startup hook counts, and it either opens the
    ///   event loop or gives up;
    /// - while running, a close request is suppressed, the exit command ends
    ///   the process with `EXIT_SUCCESS`, the greeter is run on demand, and
    ///   nothing else changes anything;
    /// - after a failed startup or an exit nothing happens any more.
    pub open spec fn transition(self, event: Event) -> Transition {
        match (self, event) {
            (Phase::Starting, Event::Setup { main_window_found }) => match setup_outcome(
                main_window_found,
            ) {
                Ok(_) => Transition { next: Phase::Running, action: Action::EnterEventLoop },
                Err(error) => Transition {
                    next: Phase::StartupFailed,
                    action: Action::AbortStartup(error),
                },
            },
            (Phase::Running, Event::Window(window_event)) => match guard_answer(
                self.hook_state(),
                window_event,
            ) {
                Some(CloseDecision::Suppress) => Transition {
                    next: Phase::Running,
                    action: Action::PreventClose,
                },
                _ => Transition { next: Phase::Running, action: Action::Nothing },
            },
            (Phase::Running, Event::Invoke(Command::Greet)) => Transition {
                next: Phase::Running,
                action: Action::RunGreeter,
            },
            (Phase::Running, Event::Invoke(Command::ForceCloseApp)) => Transition {
                next: Phase::Exited { status: EXIT_SUCCESS },
                action: Action::Exit { status: EXIT_SUCCESS },
            },
            _ => Transition { next: self, action: Action::Nothing },
        }
    }

    /// The phase after the host has delivered `events` in order.
    pub open spec fn after(self, events: Seq<Event>) -> Phase
        decreases events.len(),
    {
        if events.len() == 0 {
            self
        } else {
            self.after(events.drop_last()).transition(events.last()).next
        }
    }
}

/// The exit command: from the running application it ends the process with
/// `EXIT_SUCCESS`; in any other phase there is nothing to end.
pub fn force_close_app(phase: Phase) -> (step: Transition)
    ensures
        step == phase.transition(Event::Invoke(Command::ForceCloseApp)),
        phase == Phase::Running ==> {
            &&& step.next == (Phase::Exited { status: 0 })
            &&& step.action == (Action::Exit { status: 0 })
        },
        phase != Phase::Running ==> step.next == phase && step.action == Action::Nothing,
{
    match phase {
        Phase::Running => Transition {
            next: Phase::Exited { status: EXIT_SUCCESS },
            action: Action::Exit { status: EXIT_SUCCESS },
        },
        _ => Transition { next: phase, action: Action::Nothing },
    }
}

/// One step of the application.
pub fn step(phase: Phase, event: Event) -> (step: Transition)
    ensures
        step == phase.transition(event),
{
    match (phase, event) {
        (Phase::Starting, Event::Setup { main_window_found }) => match setup(main_window_found) {
            Ok(_) => Transition { next: Phase::Running, action: Action::EnterEventLoop },
            Err(error) => Transition {
                next: Phase::StartupFailed,
                action: Action::AbortStartup(error),
            },
        },
        (Phase::Running, Event::Window(window_event)) => match on_window_event(
            phase.hook(),
            window_event,
        ) {
            Some(CloseDecision::Suppress) => Transition {
                next: Phase::Running,
                action: Action::PreventClose,
            },
            _ => Transition { next: Phase::Running, action: Action::Nothing },
        },
        (Phase::Running, Event::Invoke(Command::Greet)) => Transition {
            next: Phase::Running,
            action: Action::RunGreeter,
        },
        (_, Event::Invoke(Command::ForceCloseApp)) => force_close_app(phase),
        _ => Transition { next: phase, action: Action::Nothing },
    }
}

/// Delivers `events` in order, starting from `phase`, and returns where the
/// application then stands.
pub fn replay(phase: Phase, events: &Vec<Event>) -> (end: Phase)
    ensures
        end == phase.after(events@),
{
    let mut current = phase;
    let mut i: usize = 0;
    while i < events.len()
        invariant
            i <= events.len(),
            current == phase.after(events@.take(i as int)),
        decreases events.len() - i,
    {
        proof {
            let upto = events@.take(i + 1);
            assert(upto.drop_last() =~= events@.take(i as int));
            assert(upto.last() == events@[i as int]);
        }
        current = step(current, events[i]).next;
        i += 1;
    }
    proof {
        assert(events@.take(i as int) =~= events@);
    }
    current
}

/// Delivering `first` and then `rest` is the same as delivering both in one
/// go.
pub proof fn after_chains(phase: Phase, first: Seq<Event>, rest: Seq<Event>)
    ensures
        phase.after(first + rest) == phase.after(first).after(rest),
    decreases rest.len(),
{
    if rest.len() == 0 {
        assert(first + rest =~= first);
    } else {
        after_chains(phase, first, rest.drop_last());
        assert((first + rest).drop_last() =~= first + rest.drop_last());
        assert((first + rest).last() == rest.last());
    }
}

/// A phase in which nothing happens any more stays as it is, whatever the
/// host delivers.
pub proof fn ended_phase_stays(phase: Phase, events: Seq<Event>)
    requires
        phase == Phase::StartupFailed || phase is Exited,
    ensures
        phase.after(events) == phase,
    decreases events.len(),
{
    if events.len() > 0 {
        ended_phase_stays(phase, events.drop_last());
    }
}

/// The exit command ends the running application with `EXIT_SUCCESS`, and
/// that is the end: whatever is delivered later, no command runs, no action
/// is asked of the host, and the status stays.
pub proof fn exit_is_final(later: Seq<Event>, event: Event)
    ensures
        Phase::Running.transition(Event::Invoke(Command::ForceCloseApp)) == (Transition {
            next: Phase::Exited { status: 0 },
            action: Action::Exit { status: 0 },
        }),
        Phase::Running.after(seq![Event::Invoke(Command::ForceCloseApp)] + later)
            == (Phase::Exited { status: 0 }),
        Phase::Running.after(seq![Event::Invoke(Command::ForceCloseApp)] + later).transition(
            event,
        ).action == Action::Nothing,
{
    let exit = seq![Event::Invoke(Command::ForceCloseApp)];
    let exited = Phase::Exited { status: 0 };
    assert(exit.drop_last() =~= Seq::<Event>::empty());
    assert(Phase::Running.after(exit.drop_last()) == Phase::Running);
    assert(Phase::Running.after(exit) == exited);
    after_chains(Phase::Running, exit, later);
    ended_phase_stays(exited, later);
}

/// Once startup is done, a close request on the main window is suppressed
/// and the application runs on; no window event, in any number and order,
/// closes the window or ends the process.
pub proof fn close_request_never_ends_the_application(events: Seq<Event>)
    requires
        forall|i: int| 0 <= i < events.len() ==> events[i] is Window,
    ensures
        Phase::Running.transition(Event::Window(WindowEvent::CloseRequested)) == (Transition {
            next: Phase::Running,
            action: Action::PreventClose,
        }),
        Phase::Running.after(events) == Phase::Running,
        Phase::Starting.after(seq![Event::Setup { main_window_found: true }] + events)
            == Phase::Running,
{
    window_events_keep_running(events);
    let good_setup = seq![Event::Setup { main_window_found: true }];
    assert(good_setup.drop_last() =~= Seq::<Event>::empty());
    assert(Phase::Starting.after(good_setup.drop_last()) == Phase::Starting);
    assert(Phase::Starting.after(good_setup) == Phase::Running);
    after_chains(Phase::Starting, good_setup, events);
}

proof fn window_events_keep_running(events: Seq<Event>)
    requires
        forall|i: int| 0 <= i < events.len() ==> events[i] is Window,
    ensures
        Phase::Running.after(events) == Phase::Running,
    decreases events.len(),
{
    if events.len() > 0 {
        window_events_keep_running(events.drop_last());
    }
}

/// The running application stops running only through the exit command:
/// it is still running after `events` exactly if none of them invoked it.
pub proof fn only_the_exit_command_ends_the_application(events: Seq<Event>)
    ensures
        Phase::Running.after(events) == Phase::Running <==> forall|i: int|
            0 <= i < events.len() ==> events[i] != Event::Invoke(Command::ForceCloseApp),
        Phase::Running.after(events) != Phase::Running ==> Phase::Running.after(events)
            == (Phase::Exited { status: 0 }),
    decreases events.len(),
{
    if events.len() > 0 {
        let before = events.drop_last();
        only_the_exit_command_ends_the_application(before);
        assert(forall|i: int| 0 <= i < before.len() ==> before[i] == events[i]);
        if Phase::Running.after(before) == Phase::Running {
            if events.last() != Event::Invoke(Command::ForceCloseApp) {
                assert forall|i: int| 0 <= i < events.len() implies events[i] != Event::Invoke(
                    Command::ForceCloseApp,
                ) by {
                    if i < before.len() {
                        assert(before[i] == events[i]);
                    }
                }
            }
        } else {
            let k = choose|i: int|
                0 <= i < before.len() && before[i] == Event::Invoke(Command::ForceCloseApp);
            assert(events[k] == Event::Invoke(Command::ForceCloseApp));
        }
    }
}

/// Without the main window startup is given up, and the event loop is never
/// entered: whatever the host delivers afterwards, the application is not
/// running and nothing is asked of the host.
pub proof fn missing_main_window_aborts_startup(later: Seq<Event>, event: Event)
    ensures
        Phase::Starting.transition(Event::Setup { main_window_found: false }) == (Transition {
            next: Phase::StartupFailed,
            action: Action::AbortStartup(StartupError::MainWindowMissing),
        }),
        Phase::Starting.after(seq![Event::Setup { main_window_found: false }] + later)
            == Phase::StartupFailed,
        Phase::StartupFailed.transition(event).action == Action::Nothing,
{
    let failed_setup = seq![Event::Setup { main_window_found: false }];
    assert(failed_setup.drop_last() =~= Seq::<Event>::empty());
    assert(Phase::Starting.after(failed_setup.drop_last()) == Phase::Starting);
    assert(Phase::Starting.after(failed_setup) == Phase::StartupFailed);
    after_chains(Phase::Starting, failed_setup, later);
    ended_phase_stays(Phase::StartupFailed, later);
}

/// The close listener is attached exactly if startup found the main window,
/// and the event loop is entered exactly then.
pub proof fn startup_enters_the_loop_iff_window_found(main_window_found: bool)
    ensures
        Phase::Starting.transition(Event::Setup { main_window_found }).next == Phase::Running
            <==> main_window_found,
        Phase::Starting.transition(Event::Setup { main_window_found }).next.hook_state()
            == HookState::Registered <==> main_window_found,
{
}

} // verus!
