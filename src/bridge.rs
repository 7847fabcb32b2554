use vstd::prelude::*;

use crate::args::{DisplaySelector, KeySequence, CURRENT_WINDOW};
use crate::command::{
    normalize, normalize_spec, ButtonAction, Call, Command, KeyAction, Mode, Request, WindowQuery,
};
use crate::error::{IsimError, Operation};

verus! {

/// One call into the automation backend, with its arguments resolved.
#[derive(Debug)]
pub enum BackendCall {
    SendKeys { action: KeyAction, window: u64, keys: KeySequence, delay: u32 },
    Button { action: ButtonAction, window: u64, button: i32 },
    KillWindow { window: u64 },
    GetPidWindow { window: u64 },
    Query { query: WindowQuery },
    GetMouseLocation,
    MoveMouse { x: i32, y: i32, screen: i32 },
    MoveMouseRelative { x: i32, y: i32 },
    MoveMouseRelativeToWindow { window: u64, x: i32, y: i32 },
    ActivateWindow { window: u64 },
    FocusWindow { window: u64 },
}

/// A blocking backend wait that confirms a command's effect.
#[derive(Debug, Clone, Copy, PartialEq, Eq)]
pub enum Wait {
    MouseMoveFrom { x: i32, y: i32 },
    WindowActive { window: u64 },
    WindowFocus { window: u64 },
}

/// What the host reports back after carrying out an action.
#[derive(Debug, Clone, Copy, PartialEq, Eq)]
pub enum Event {
    /// The session to the display is open.
    Opened,
    /// The backend refused to open the display.
    OpenFailed,
    /// A backend call returned this status.
    Returned { status: i32 },
    /// The pointer location query returned this status and location.
    Located { status: i32, x: i32, y: i32, screen: i32 },
    /// A window query returned this status and window.
    Queried { status: i32, window: u64 },
    /// The background wait has returned.
    WaitEnded,
}

/// The value a successful command delivers.
#[derive(Debug, Clone, Copy, PartialEq, Eq)]
pub enum Outcome {
    Status(i32),
    Window(u64),
    Pid(i32),
}

/// What the host is to do next for an invocation.
#[derive(Debug)]
pub enum Action {
    /// Open a session to this display, then report `Opened` or `OpenFailed`.
    Open(DisplaySelector),
    /// Make this backend call on the calling thread and report its result.
    Issue(BackendCall),
    /// Hand the caller a pending result, run this wait in the background
    /// with the session kept open, then report `WaitEnded`.
    Defer(Wait),
    /// Deliver this result (settling a pending one, if any) and release the session.
    Finish(Result<Outcome, IsimError>),
}

/// Where an invocation stands.
#[derive(Debug, Clone, Copy, PartialEq, Eq)]
pub enum Stage {
    Opening,
    Locating,
    Moving { origin_x: i32, origin_y: i32 },
    Issuing,
    Waiting { status: i32 },
    Done,
}

/// The backend call that carries out a command.
pub open spec fn mutating_call(c: Command) -> BackendCall {
    match c {
        Command::Key { action, keys, window, delay } => BackendCall::SendKeys {
            action,
            window,
            keys,
            delay,
        },
        Command::Button { action, button, window } => BackendCall::Button {
            action,
            window,
            button,
        },
        Command::KillWindow { window } => BackendCall::KillWindow { window },
        Command::GetPidWindow { window } => BackendCall::GetPidWindow { window },
        Command::Query { query } => BackendCall::Query { query },
        Command::MouseMove { x, y, screen } => BackendCall::MoveMouse { x, y, screen },
        Command::MouseMoveRelative { x, y } => BackendCall::MoveMouseRelative { x, y },
        Command::MouseMoveRelativeToWindow { x, y, window } => BackendCall::MoveMouseRelativeToWindow {
            window: match window {
                Some(w) => w,
                None => CURRENT_WINDOW,
            },
            x,
            y,
        },
        Command::ActivateWindow { window } => BackendCall::ActivateWindow { window },
        Command::FocusWindow { window } => BackendCall::FocusWindow { window },
    }
}

/// The window a backend call targets, where it targets one.
pub open spec fn target_of(b: BackendCall) -> Option<u64> {
    match b {
        BackendCall::SendKeys { window, .. } => Some(window),
        BackendCall::Button { window, .. } => Some(window),
        BackendCall::KillWindow { window } => Some(window),
        BackendCall::GetPidWindow { window } => Some(window),
        BackendCall::MoveMouseRelativeToWindow { window, .. } => Some(window),
        BackendCall::ActivateWindow { window } => Some(window),
        BackendCall::FocusWindow { window } => Some(window),
        _ => None,
    }
}

/// The operation named when a pointer move fails.
pub open spec fn motion_operation(c: Command) -> Operation {
    match c {
        Command::MouseMove { .. } => Operation::MoveMouse,
        Command::MouseMoveRelative { .. } => Operation::MoveMouseRelative,
        _ => Operation::MoveMouseRelativeToWindow,
    }
}

/// The operation named when a window query fails.
pub open spec fn query_operation(q: WindowQuery) -> Operation {
    match q {
        WindowQuery::AtMouse => Operation::GetWindowAtMouse,
        WindowQuery::Focused => Operation::GetFocusedWindow,
        WindowQuery::Active => Operation::GetActiveWindow,
    }
}

/// What a process id query delivers: the backend's "no pid" value is an error.
pub open spec fn pid_result(pid: i32) -> Result<Outcome, IsimError> {
    if pid == -1 {
        Err(IsimError::InvalidPid { pid })
    } else {
        Ok(Outcome::Pid(pid))
    }
}

/// What a window query delivers.
pub open spec fn query_result(q: WindowQuery, status: i32, window: u64) -> Result<
    Outcome,
    IsimError,
> {
    if status != 0 {
        Err(IsimError::LibraryCall { operation: query_operation(q), code: status })
    } else {
        Ok(Outcome::Window(window))
    }
}

/// The step after a non-motion command's backend call returned `status`.
pub open spec fn after_issue(c: Command, status: i32) -> (Stage, Action) {
    match c {
        Command::ActivateWindow { window } => (
            Stage::Waiting { status },
            Action::Defer(Wait::WindowActive { window }),
        ),
        Command::FocusWindow { window } => (
            Stage::Waiting { status },
            Action::Defer(Wait::WindowFocus { window }),
        ),
        Command::GetPidWindow { .. } => (Stage::Done, Action::Finish(pid_result(status))),
        _ => (Stage::Done, Action::Finish(Ok(Outcome::Status(status)))),
    }
}

/// The events that an invocation at `stage` of command `c` can receive.
pub open spec fn accepts_spec(c: Command, stage: Stage, e: Event) -> bool {
    match (stage, e) {
        (Stage::Opening, Event::Opened) => true,
        (Stage::Opening, Event::OpenFailed) => true,
        (Stage::Locating, Event::Located { .. }) => true,
        (Stage::Moving { .. }, Event::Returned { .. }) => true,
        (Stage::Issuing, Event::Returned { .. }) => !(c is Query),
        (Stage::Issuing, Event::Queried { .. }) => c is Query,
        (Stage::Waiting { .. }, Event::WaitEnded) => true,
        _ => false,
    }
}

/// The next stage and action of an invocation of `call` at `stage` on event `e`.
pub open spec fn transition(call: Call, stage: Stage, e: Event) -> (Stage, Action) {
    match (stage, e) {
        (Stage::Opening, Event::OpenFailed) => (
            Stage::Done,
            Action::Finish(Err(IsimError::Connection { display: call.display })),
        ),
        (Stage::Opening, Event::Opened) => if call.command.is_motion() {
            (Stage::Locating, Action::Issue(BackendCall::GetMouseLocation))
        } else {
            (Stage::Issuing, Action::Issue(mutating_call(call.command)))
        },
        (Stage::Locating, Event::Located { status, x, y, screen: _ }) => if status != 0 {
            (
                Stage::Done,
                Action::Finish(
                    Err(IsimError::LibraryCall { operation: Operation::GetMouseLocation, code: status }),
                ),
            )
        } else {
            (Stage::Moving { origin_x: x, origin_y: y }, Action::Issue(mutating_call(call.command)))
        },
        (Stage::Moving { origin_x, origin_y }, Event::Returned { status }) => if status != 0 {
            (
                Stage::Done,
                Action::Finish(
                    Err(
                        IsimError::LibraryCall {
                            operation: motion_operation(call.command),
                            code: status,
                        },
                    ),
                ),
            )
        } else {
            (Stage::Waiting { status }, Action::Defer(Wait::MouseMoveFrom { x: origin_x, y: origin_y }))
        },
        (Stage::Issuing, Event::Returned { status }) => after_issue(call.command, status),
        (Stage::Issuing, Event::Queried { status, window }) => match call.command {
            Command::Query { query } => (
                Stage::Done,
                Action::Finish(query_result(query, status, window)),
            ),
            _ => arbitrary(),
        },
        (Stage::Waiting { status }, Event::WaitEnded) => (
            Stage::Done,
            Action::Finish(Ok(Outcome::Status(status))),
        ),
        _ => arbitrary(),
    }
}

/// The stages that an invocation of `c` can reach.
pub open spec fn stage_fits(c: Command, stage: Stage) -> bool {
    match stage {
        Stage::Locating => c.is_motion(),
        Stage::Moving { .. } => c.is_motion(),
        Stage::Issuing => !c.is_motion(),
        Stage::Waiting { .. } => c.mode_spec() == Mode::Async,
        _ => true,
    }
}

/// The backend call that carries out `c`.
pub fn backend_call(c: &Command) -> (r: BackendCall)
    ensures
        r == mutating_call(*c),
{
    match c {
        Command::Key { action, keys, window, delay } => BackendCall::SendKeys {
            action: *action,
            window: *window,
            keys: keys.duplicate(),
            delay: *delay,
        },
        Command::Button { action, button, window } => BackendCall::Button {
            action: *action,
            window: *window,
            button: *button,
        },
        Command::KillWindow { window } => BackendCall::KillWindow { window: *window },
        Command::GetPidWindow { window } => BackendCall::GetPidWindow { window: *window },
        Command::Query { query } => BackendCall::Query { query: *query },
        Command::MouseMove { x, y, screen } => BackendCall::MoveMouse { x: *x, y: *y, screen: *screen },
        Command::MouseMoveRelative { x, y } => BackendCall::MoveMouseRelative { x: *x, y: *y },
        Command::MouseMoveRelativeToWindow { x, y, window } => BackendCall::MoveMouseRelativeToWindow {
            window: match window {
                Some(w) => *w,
                None => CURRENT_WINDOW,
            },
            x: *x,
            y: *y,
        },
        Command::ActivateWindow { window } => BackendCall::ActivateWindow { window: *window },
        Command::FocusWindow { window } => BackendCall::FocusWindow { window: *window },
    }
}

/// One command invocation, from opening its session to delivering its result.
#[derive(Debug)]
pub struct Invocation {
    call: Call,
    stage: Stage,
}

impl Invocation {
    pub closed spec fn call(&self) -> Call {
        self.call
    }

    pub closed spec fn stage(&self) -> Stage {
        self.stage
    }

    pub open spec fn wf(&self) -> bool {
        stage_fits(self.call().command, self.stage())
    }

    /// Normalizes a request and, when it is valid, starts an invocation
    /// whose first action opens the session. An invalid request makes no
    /// backend call at all.
    pub fn begin(req: Request) -> (r: Result<(Invocation, Action), IsimError>)
        ensures
            match normalize_spec(req) {
                Err(e) => r == Err::<(Invocation, Action), IsimError>(e),
                Ok(c) => match r {
                    Ok((inv, a)) => {
                        &&& inv.call() == c
                        &&& inv.stage() == Stage::Opening
                        &&& inv.wf()
                        &&& a == Action::Open(c.display)
                    },
                    Err(_) => false,
                },
            },
    {
        match normalize(req) {
            Err(e) => Err(e),
            Ok(call) => {
                let d = call.display.duplicate();
                Ok((Invocation { call, stage: Stage::Opening }, Action::Open(d)))
            },
        }
    }

    /// Whether `e` is an event this invocation can receive now.
    pub fn accepts(&self, e: &Event) -> (r: bool)
        ensures
            r == accepts_spec(self.call().command, self.stage(), *e),
    {
        match (self.stage, *e) {
            (Stage::Opening, Event::Opened) => true,
            (Stage::Opening, Event::OpenFailed) => true,
            (Stage::Locating, Event::Located { .. }) => true,
            (Stage::Moving { .. }, Event::Returned { .. }) => true,
            (Stage::Issuing, Event::Returned { .. }) => !matches!(self.call.command, Command::Query { .. }),
            (Stage::Issuing, Event::Queried { .. }) => matches!(self.call.command, Command::Query { .. }),
            (Stage::Waiting { .. }, Event::WaitEnded) => true,
            _ => false,
        }
    }

    /// Whether the invocation has delivered its result.
    pub fn is_done(&self) -> (r: bool)
        ensures
            r == (self.stage() == Stage::Done),
    {
        matches!(self.stage, Stage::Done)
    }

    /// Advances the invocation on a reported event and says what to do next.
    pub fn step(&mut self, e: Event) -> (r: Action)
        requires
            old(self).wf(),
            accepts_spec(old(self).call().command, old(self).stage(), e),
        ensures
            final(self).call() == old(self).call(),
            (final(self).stage(), r) == transition(old(self).call(), old(self).stage(), e),
            final(self).wf(),
    {
        let (stage, action) = match (self.stage, e) {
            (Stage::Opening, Event::OpenFailed) => (
                Stage::Done,
                Action::Finish(Err(IsimError::Connection { display: self.call.display.duplicate() })),
            ),
            (Stage::Opening, Event::Opened) => if self.call.command.is_motion_command() {
                (Stage::Locating, Action::Issue(BackendCall::GetMouseLocation))
            } else {
                (Stage::Issuing, Action::Issue(backend_call(&self.call.command)))
            },
            (Stage::Locating, Event::Located { status, x, y, screen: _ }) => if status != 0 {
                (
                    Stage::Done,
                    Action::Finish(
                        Err(IsimError::LibraryCall { operation: Operation::GetMouseLocation, code: status }),
                    ),
                )
            } else {
                (Stage::Moving { origin_x: x, origin_y: y }, Action::Issue(backend_call(&self.call.command)))
            },
            (Stage::Moving { origin_x, origin_y }, Event::Returned { status }) => if status != 0 {
                let operation = match self.call.command {
                    Command::MouseMove { .. } => Operation::MoveMouse,
                    Command::MouseMoveRelative { .. } => Operation::MoveMouseRelative,
                    _ => Operation::MoveMouseRelativeToWindow,
                };
                (Stage::Done, Action::Finish(Err(IsimError::LibraryCall { operation, code: status })))
            } else {
                (
                    Stage::Waiting { status },
                    Action::Defer(Wait::MouseMoveFrom { x: origin_x, y: origin_y }),
                )
            },
            (Stage::Issuing, Event::Returned { status }) => match self.call.command {
                Command::ActivateWindow { window } => (
                    Stage::Waiting { status },
                    Action::Defer(Wait::WindowActive { window }),
                ),
                Command::FocusWindow { window } => (
                    Stage::Waiting { status },
                    Action::Defer(Wait::WindowFocus { window }),
                ),
                Command::GetPidWindow { .. } => if status == -1 {
                    (Stage::Done, Action::Finish(Err(IsimError::InvalidPid { pid: status })))
                } else {
                    (Stage::Done, Action::Finish(Ok(Outcome::Pid(status))))
                },
                _ => (Stage::Done, Action::Finish(Ok(Outcome::Status(status)))),
            },
            (Stage::Issuing, Event::Queried { status, window }) => {
                let query = match self.call.command {
                    Command::Query { query } => query,
                    _ => WindowQuery::Active,
                };
                if status != 0 {
                    let operation = match query {
                        WindowQuery::AtMouse => Operation::GetWindowAtMouse,
                        WindowQuery::Focused => Operation::GetFocusedWindow,
                        WindowQuery::Active => Operation::GetActiveWindow,
                    };
                    (Stage::Done, Action::Finish(Err(IsimError::LibraryCall { operation, code: status })))
                } else {
                    (Stage::Done, Action::Finish(Ok(Outcome::Window(window))))
                }
            },
            (_, _) => {
                // Only `Waiting` with `WaitEnded` is left among the accepted pairs.
                let status = match self.stage {
                    Stage::Waiting { status } => status,
                    _ => 0,
                };
                (Stage::Done, Action::Finish(Ok(Outcome::Status(status))))
            },
        };
        self.stage = stage;
        action
    }
}

} // verus!
