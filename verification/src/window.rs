//! The close guard of the main window.
//!
//! At startup a listener is attached to the main window. From then on every
//! request to close that window is answered with "suppress", so the platform's
//! close gestures no longer end the application. The guard looks at no other
//! window event, and it is never taken off again.

use vstd::prelude::*;
use vstd::string::StringExecFns;

verus! {

/// Whether the listener has been attached to the main window.
#[derive(Clone, Copy, Debug, PartialEq, Eq, Structural)]
pub enum HookState {
    Unregistered,
    Registered,
}

/// What the guard reads of an event that the host delivers to the main
/// window: whether it asks for the window to be closed.
#[derive(Clone, Copy, Debug, PartialEq, Eq, Structural)]
pub enum WindowEvent {
    CloseRequested,
    Other,
}

/// The answer to a close request.
#[derive(Clone, Copy, Debug, PartialEq, Eq, Structural)]
pub enum CloseDecision {
    /// The event counts as handled and the window stays open.
    Suppress,
    /// The host goes on and closes the window.
    Allow,
}

/// Why startup was given up.
#[derive(Clone, Copy, Debug, PartialEq, Eq, Structural)]
pub enum StartupError {
    /// No window goes by the label of the main window.
    MainWindowMissing,
}

impl StartupError {
    /// The text that the host shows when startup is given up.
    pub open spec fn message_text(self) -> Seq<char> {
        match self {
            StartupError::MainWindowMissing => "Failed to get main window"@,
        }
    }

    pub fn message(&self) -> (text: String)
        ensures
            text@ == self.message_text(),
    {
        match self {
            StartupError::MainWindowMissing => String::from_str("Failed to get main window"),
        }
    }
}

/// The label by which the host knows the main window.
pub fn main_window_label() -> (label: &'static str)
    ensures
        label@ == "main"@,
{
    "main"
}

/// What startup comes to, given whether the host found the main window.
pub open spec fn setup_outcome(main_window_found: bool) -> Result<HookState, StartupError> {
    if main_window_found {
        Ok(HookState::Registered)
    } else {
        Err(StartupError::MainWindowMissing)
    }
}

/// The startup hook. With the main window at hand the listener is attached;
/// without it startup fails, and that is the only way it fails.
pub fn setup(main_window_found: bool) -> (outcome: Result<HookState, StartupError>)
    ensures
        outcome == setup_outcome(main_window_found),
        outcome is Ok <==> main_window_found,
{
    if main_window_found {
        Ok(HookState::Registered)
    } else {
        Err(StartupError::MainWindowMissing)
    }
}

/// The guard's answer to a close request: always the same.
pub fn on_close_requested() -> (decision: CloseDecision)
    ensures
        decision == CloseDecision::Suppress,
{
    CloseDecision::Suppress
}

/// What the guard says to `event`: `Some(Suppress)` to a close request once
/// the listener is attached, `None` (the event is left alone) otherwise.
pub open spec fn guard_answer(hook: HookState, event: WindowEvent) -> Option<CloseDecision> {
    if hook == HookState::Registered && event == WindowEvent::CloseRequested {
        Some(CloseDecision::Suppress)
    } else {
        None
    }
}

/// The listener. A detached guard sees nothing; an attached one answers
/// close requests and lets every other event pass untouched.
pub fn on_window_event(hook: HookState, event: WindowEvent) -> (answer: Option<CloseDecision>)
    ensures
        answer == guard_answer(hook, event),
{
    match (hook, event) {
        (HookState::Registered, WindowEvent::CloseRequested) => Some(on_close_requested()),
        _ => None,
    }
}

} // verus!
