use desktop_shell::window::{
    main_window_label, on_close_requested, on_window_event, setup, CloseDecision, HookState,
    StartupError, WindowEvent,
};

#[test]
fn main_window_goes_by_its_label() {
    assert_eq!(main_window_label(), "main");
}

#[test]
fn setup_attaches_the_listener_when_the_window_is_there() {
    assert_eq!(setup(true), Ok(HookState::Registered));
}

#[test]
fn setup_fails_without_the_main_window() {
    assert_eq!(setup(false), Err(StartupError::MainWindowMissing));
}

#[test]
fn startup_error_has_its_message() {
    assert_eq!(StartupError::MainWindowMissing.message(), "Failed to get main window");
}

#[test]
fn a_close_request_is_always_suppressed() {
    assert_eq!(on_close_requested(), CloseDecision::Suppress);
    assert_ne!(on_close_requested(), CloseDecision::Allow);
}

#[test]
fn attached_listener_suppresses_close_requests() {
    assert_eq!(
        on_window_event(HookState::Registered, WindowEvent::CloseRequested),
        Some(CloseDecision::Suppress)
    );
}

#[test]
fn attached_listener_suppresses_every_close_request() {
    for _ in 0..100 {
        assert_eq!(
            on_window_event(HookState::Registered, WindowEvent::CloseRequested),
            Some(CloseDecision::Suppress)
        );
    }
}

#[test]
fn attached_listener_leaves_other_events_alone() {
    assert_eq!(on_window_event(HookState::Registered, WindowEvent::Other), None);
}

#[test]
fn detached_listener_sees_nothing() {
    assert_eq!(on_window_event(HookState::Unregistered, WindowEvent::CloseRequested), None);
    assert_eq!(on_window_event(HookState::Unregistered, WindowEvent::Other), None);
}

#[test]
fn listener_from_setup_guards_the_window() {
    let hook = setup(true).unwrap();
    assert_eq!(on_window_event(hook, WindowEvent::CloseRequested), Some(CloseDecision::Suppress));
}
