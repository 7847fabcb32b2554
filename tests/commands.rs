use isim::args::{display, first_nul, screen, target_window, Arg, DisplaySelector, KeySequence, CURRENT_SCREEN, CURRENT_WINDOW};
use isim::bridge::{Action, BackendCall, Event, Invocation, Outcome, Wait};
use isim::command::{normalize, ButtonAction, Command, KeyAction, Mode, RawCommand, Request, WindowQuery};
use isim::error::{IsimError, Operation};

fn request(command: RawCommand) -> Request {
    Request { command, display: Arg::Missing }
}

fn begin(command: RawCommand) -> (Invocation, Action) {
    Invocation::begin(request(command)).expect("valid request")
}

fn finish(a: Action) -> Result<Outcome, IsimError> {
    match a {
        Action::Finish(r) => r,
        other => panic!("expected a result, got {:?}", other),
    }
}

#[test]
fn key_down_defaults_make_one_backend_call() {
    let (mut inv, open) = begin(RawCommand::Key {
        action: KeyAction::Down,
        keys: "a".to_string(),
        window: Arg::Missing,
        delay: Arg::Missing,
    });
    assert!(matches!(open, Action::Open(DisplaySelector::Default)));
    match inv.step(Event::Opened) {
        Action::Issue(BackendCall::SendKeys { action, window, keys, delay }) => {
            assert_eq!(action, KeyAction::Down);
            assert_eq!(window, CURRENT_WINDOW);
            assert_eq!(keys.as_str(), "a");
            assert_eq!(delay, 0);
        }
        other => panic!("unexpected {:?}", other),
    }
    assert_eq!(finish(inv.step(Event::Returned { status: 7 })), Ok(Outcome::Status(7)));
    assert!(inv.is_done());
}

#[test]
fn mouse_move_relative_resolves_after_wait_with_captured_status() {
    let (mut inv, _) = begin(RawCommand::MouseMoveRelative { x: 10, y: -5 });
    assert!(matches!(inv.step(Event::Opened), Action::Issue(BackendCall::GetMouseLocation)));
    match inv.step(Event::Located { status: 0, x: 100, y: 200, screen: 0 }) {
        Action::Issue(BackendCall::MoveMouseRelative { x, y }) => assert_eq!((x, y), (10, -5)),
        other => panic!("unexpected {:?}", other),
    }
    match inv.step(Event::Returned { status: 0 }) {
        Action::Defer(w) => assert_eq!(w, Wait::MouseMoveFrom { x: 100, y: 200 }),
        other => panic!("unexpected {:?}", other),
    }
    assert!(!inv.is_done());
    assert!(!inv.accepts(&Event::Returned { status: 0 }));
    assert!(inv.accepts(&Event::WaitEnded));
    assert_eq!(finish(inv.step(Event::WaitEnded)), Ok(Outcome::Status(0)));
}

#[test]
fn activate_window_carries_mutating_status() {
    let (mut inv, _) = begin(RawCommand::ActivateWindow { window: 12345 });
    assert!(matches!(
        inv.step(Event::Opened),
        Action::Issue(BackendCall::ActivateWindow { window: 12345 })
    ));
    match inv.step(Event::Returned { status: 0 }) {
        Action::Defer(w) => assert_eq!(w, Wait::WindowActive { window: 12345 }),
        other => panic!("unexpected {:?}", other),
    }
    assert_eq!(finish(inv.step(Event::WaitEnded)), Ok(Outcome::Status(0)));
}

#[test]
fn focus_window_nonzero_status_is_delivered_after_wait() {
    let (mut inv, _) = begin(RawCommand::FocusWindow { window: 9 });
    inv.step(Event::Opened);
    match inv.step(Event::Returned { status: 1 }) {
        Action::Defer(w) => assert_eq!(w, Wait::WindowFocus { window: 9 }),
        other => panic!("unexpected {:?}", other),
    }
    assert_eq!(finish(inv.step(Event::WaitEnded)), Ok(Outcome::Status(1)));
}

#[test]
fn get_pid_minus_one_is_invalid_pid() {
    let (mut inv, _) = begin(RawCommand::GetPidWindow { window: 0 });
    assert!(matches!(inv.step(Event::Opened), Action::Issue(BackendCall::GetPidWindow { window: 0 })));
    let err = finish(inv.step(Event::Returned { status: -1 })).unwrap_err();
    assert_eq!(err, IsimError::InvalidPid { pid: -1 });
    assert_eq!(err.message(), "invalid pid : (-1)");
}

#[test]
fn get_pid_returns_pid() {
    let (mut inv, _) = begin(RawCommand::GetPidWindow { window: 42 });
    inv.step(Event::Opened);
    assert_eq!(finish(inv.step(Event::Returned { status: 4321 })), Ok(Outcome::Pid(4321)));
}

#[test]
fn key_text_with_terminator_is_rejected_before_any_call() {
    let r = Invocation::begin(request(RawCommand::Key {
        action: KeyAction::Press,
        keys: "ab\0c".to_string(),
        window: Arg::Given(5),
        delay: Arg::Given(10),
    }));
    let err = r.unwrap_err();
    assert_eq!(err, IsimError::Validation { position: 2 });
    assert_eq!(err.message(), "nul byte found in provided data at position: 2");
}

#[test]
fn terminator_position_counts_bytes() {
    assert_eq!(first_nul("é\0"), Some(2));
    assert_eq!(first_nul("plain"), None);
    assert_eq!(first_nul(""), None);
    assert!(KeySequence::new("\0".to_string()).is_err());
}

#[test]
fn display_with_terminator_is_rejected() {
    let r = Invocation::begin(Request {
        command: RawCommand::Query { query: WindowQuery::Active },
        display: Arg::Given(":0\0".to_string()),
    });
    assert_eq!(r.unwrap_err(), IsimError::Validation { position: 2 });
}

#[test]
fn key_text_is_checked_before_display() {
    let r = Invocation::begin(Request {
        command: RawCommand::Key {
            action: KeyAction::Up,
            keys: "\0".to_string(),
            window: Arg::Missing,
            delay: Arg::Missing,
        },
        display: Arg::Given("abc\0".to_string()),
    });
    assert_eq!(r.unwrap_err(), IsimError::Validation { position: 0 });
}

#[test]
fn no_value_display_opens_default() {
    for d in [Arg::Missing, Arg::NoValue] {
        let (_, open) = Invocation::begin(Request {
            command: RawCommand::KillWindow { window: 3 },
            display: d,
        })
        .unwrap();
        assert!(matches!(open, Action::Open(DisplaySelector::Default)));
    }
    assert_eq!(display(Arg::NoValue), Ok(DisplaySelector::Default));
}

#[test]
fn named_display_is_opened() {
    let (_, open) = Invocation::begin(Request {
        command: RawCommand::KillWindow { window: 3 },
        display: Arg::Given(":1".to_string()),
    })
    .unwrap();
    match open {
        Action::Open(DisplaySelector::Named(s)) => assert_eq!(s, ":1"),
        other => panic!("unexpected {:?}", other),
    }
}

#[test]
fn open_failure_is_connection_error() {
    let (mut inv, _) = Invocation::begin(Request {
        command: RawCommand::Button { action: ButtonAction::Click, button: 1, window: Arg::Missing },
        display: Arg::Given(":9".to_string()),
    })
    .unwrap();
    let err = finish(inv.step(Event::OpenFailed)).unwrap_err();
    assert_eq!(err, IsimError::Connection { display: DisplaySelector::Named(":9".to_string()) });
    assert_eq!(err.message(), "can't open display: :9");
    assert_eq!(
        IsimError::Connection { display: DisplaySelector::Default }.message(),
        "can't open the default display"
    );
}

#[test]
fn no_value_window_is_current_window() {
    for w in [Arg::Missing, Arg::NoValue] {
        let (mut inv, _) = begin(RawCommand::Button { action: ButtonAction::Down, button: 3, window: w });
        match inv.step(Event::Opened) {
            Action::Issue(BackendCall::Button { action, window, button }) => {
                assert_eq!((action, window, button), (ButtonAction::Down, CURRENT_WINDOW, 3));
            }
            other => panic!("unexpected {:?}", other),
        }
        let (mut inv, _) = begin(RawCommand::MouseMoveRelativeToWindow { x: 1, y: 2, window: w });
        inv.step(Event::Opened);
        match inv.step(Event::Located { status: 0, x: 0, y: 0, screen: 0 }) {
            Action::Issue(BackendCall::MoveMouseRelativeToWindow { window, x, y }) => {
                assert_eq!((window, x, y), (CURRENT_WINDOW, 1, 2));
            }
            other => panic!("unexpected {:?}", other),
        }
    }
    assert_eq!(target_window(Arg::Given(77)), 77);
    assert_eq!(target_window(Arg::NoValue), CURRENT_WINDOW);
}

#[test]
fn motion_window_keeps_no_window_apart() {
    let call = normalize(request(RawCommand::MouseMoveRelativeToWindow { x: 1, y: 2, window: Arg::NoValue })).unwrap();
    assert!(matches!(call.command, Command::MouseMoveRelativeToWindow { window: None, .. }));
    let call = normalize(request(RawCommand::MouseMoveRelativeToWindow { x: 1, y: 2, window: Arg::Given(8) })).unwrap();
    assert!(matches!(call.command, Command::MouseMoveRelativeToWindow { window: Some(8), .. }));
}

#[test]
fn omitted_screen_equals_current_screen() {
    let run = |s: Arg<i32>| {
        let (mut inv, _) = begin(RawCommand::MouseMove { x: 5, y: 6, screen: s });
        inv.step(Event::Opened);
        match inv.step(Event::Located { status: 0, x: 0, y: 0, screen: 0 }) {
            Action::Issue(BackendCall::MoveMouse { x, y, screen }) => (x, y, screen),
            other => panic!("unexpected {:?}", other),
        }
    };
    assert_eq!(run(Arg::Missing), run(Arg::Given(CURRENT_SCREEN)));
    assert_eq!(run(Arg::NoValue), (5, 6, 0));
    assert_eq!(run(Arg::Given(2)), (5, 6, 2));
    assert_eq!(screen(Arg::Missing), 0);
}

#[test]
fn given_delay_and_window_pass_through() {
    let (mut inv, _) = begin(RawCommand::Key {
        action: KeyAction::Press,
        keys: "ctrl+c".to_string(),
        window: Arg::Given(99),
        delay: Arg::Given(12000),
    });
    match inv.step(Event::Opened) {
        Action::Issue(BackendCall::SendKeys { action, window, keys, delay }) => {
            assert_eq!((action, window, delay), (KeyAction::Press, 99, 12000));
            assert_eq!(keys.as_str(), "ctrl+c");
        }
        other => panic!("unexpected {:?}", other),
    }
}

#[test]
fn location_failure_stops_before_move() {
    let (mut inv, _) = begin(RawCommand::MouseMove { x: 1, y: 1, screen: Arg::Missing });
    inv.step(Event::Opened);
    let err = finish(inv.step(Event::Located { status: 3, x: 0, y: 0, screen: 0 })).unwrap_err();
    assert_eq!(err, IsimError::LibraryCall { operation: Operation::GetMouseLocation, code: 3 });
    assert_eq!(err.message(), "failed to xdo_get_mouse_location : 3");
    assert!(inv.is_done());
}

#[test]
fn move_failure_is_reported_without_waiting() {
    let (mut inv, _) = begin(RawCommand::MouseMoveRelativeToWindow { x: 1, y: 1, window: Arg::Missing });
    inv.step(Event::Opened);
    inv.step(Event::Located { status: 0, x: 0, y: 0, screen: 0 });
    let err = finish(inv.step(Event::Returned { status: -12 })).unwrap_err();
    assert_eq!(err, IsimError::LibraryCall { operation: Operation::MoveMouseRelativeToWindow, code: -12 });
    assert_eq!(err.message(), "failed to xdo_move_mouse_relative_to_window : -12");
}

#[test]
fn window_queries() {
    let (mut inv, _) = begin(RawCommand::Query { query: WindowQuery::AtMouse });
    assert!(matches!(inv.step(Event::Opened), Action::Issue(BackendCall::Query { query: WindowQuery::AtMouse })));
    assert!(!inv.accepts(&Event::Returned { status: 0 }));
    assert_eq!(finish(inv.step(Event::Queried { status: 0, window: 81788929 })), Ok(Outcome::Window(81788929)));

    let (mut inv, _) = begin(RawCommand::Query { query: WindowQuery::Focused });
    inv.step(Event::Opened);
    let err = finish(inv.step(Event::Queried { status: 1, window: 0 })).unwrap_err();
    assert_eq!(err, IsimError::LibraryCall { operation: Operation::GetFocusedWindow, code: 1 });
    assert_eq!(err.message(), "failed to xdo_get_focused_window : 1");
}

#[test]
fn kill_window_returns_raw_status() {
    let (mut inv, _) = begin(RawCommand::KillWindow { window: 17 });
    assert!(matches!(inv.step(Event::Opened), Action::Issue(BackendCall::KillWindow { window: 17 })));
    assert_eq!(finish(inv.step(Event::Returned { status: 1 })), Ok(Outcome::Status(1)));
}

#[test]
fn modes_follow_the_command_table() {
    let mode = |c: RawCommand| normalize(request(c)).unwrap().command.mode();
    assert_eq!(mode(RawCommand::KillWindow { window: 1 }), Mode::Sync);
    assert_eq!(mode(RawCommand::Query { query: WindowQuery::Active }), Mode::Sync);
    assert_eq!(mode(RawCommand::FocusWindow { window: 1 }), Mode::Async);
    assert_eq!(mode(RawCommand::MouseMove { x: 0, y: 0, screen: Arg::Missing }), Mode::Async);
}

#[test]
fn decimal_messages_cover_extremes() {
    let m = IsimError::LibraryCall { operation: Operation::MoveMouse, code: i32::MIN }.message();
    assert_eq!(m, "failed to xdo_move_mouse : -2147483648");
    let m = IsimError::InvalidPid { pid: 0 }.message();
    assert_eq!(m, "invalid pid : (0)");
    let m = IsimError::LibraryCall { operation: Operation::GetWindowAtMouse, code: i32::MAX }.message();
    assert_eq!(m, "failed to xdo_get_window_at_mouse : 2147483647");
}

#[test]
fn opened_session_is_not_reopened() {
    let (mut inv, _) = begin(RawCommand::KillWindow { window: 1 });
    assert!(inv.accepts(&Event::Opened));
    inv.step(Event::Opened);
    assert!(!inv.accepts(&Event::Opened));
    assert!(!inv.accepts(&Event::OpenFailed));
}
