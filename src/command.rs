use vstd::prelude::*;

use crate::args::{
    bytes_of, delay, delay_of, display, display_of, first_nul_of, motion_window, nul_free, screen,
    screen_of, target_window, target_window_of, Arg, DisplaySelector, KeySequence,
};
use crate::error::IsimError;

verus! {

/// How a key sequence is sent.
#[derive(Debug, Clone, Copy, PartialEq, Eq)]
pub enum KeyAction {
    Down,
    Up,
    Press,
}

/// How a pointer button is used.
#[derive(Debug, Clone, Copy, PartialEq, Eq)]
pub enum ButtonAction {
    Down,
    Up,
    Click,
}

/// Which window a window query asks for.
#[derive(Debug, Clone, Copy, PartialEq, Eq)]
pub enum WindowQuery {
    AtMouse,
    Focused,
    Active,
}

/// A command with its arguments as the host supplies them.
#[derive(Debug)]
pub enum RawCommand {
    Key { action: KeyAction, keys: String, window: Arg<u64>, delay: Arg<u32> },
    Button { action: ButtonAction, button: i32, window: Arg<u64> },
    KillWindow { window: u64 },
    GetPidWindow { window: u64 },
    Query { query: WindowQuery },
    MouseMove { x: i32, y: i32, screen: Arg<i32> },
    MouseMoveRelative { x: i32, y: i32 },
    MouseMoveRelativeToWindow { x: i32, y: i32, window: Arg<u64> },
    ActivateWindow { window: u64 },
    FocusWindow { window: u64 },
}

/// One invocation as the host requests it: the command and the display to use.
#[derive(Debug)]
pub struct Request {
    pub command: RawCommand,
    pub display: Arg<String>,
}

/// A command whose arguments are resolved to the values the backend receives.
#[derive(Debug)]
pub enum Command {
    Key { action: KeyAction, keys: KeySequence, window: u64, delay: u32 },
    Button { action: ButtonAction, button: i32, window: u64 },
    KillWindow { window: u64 },
    GetPidWindow { window: u64 },
    Query { query: WindowQuery },
    MouseMove { x: i32, y: i32, screen: i32 },
    MouseMoveRelative { x: i32, y: i32 },
    MouseMoveRelativeToWindow { x: i32, y: i32, window: Option<u64> },
    ActivateWindow { window: u64 },
    FocusWindow { window: u64 },
}

/// Whether a command's result is returned at once or after its effect is observed.
#[derive(Debug, Clone, Copy, PartialEq, Eq)]
pub enum Mode {
    Sync,
    Async,
}

impl Command {
    /// Commands that move the pointer, and so capture its origin first.
    pub open spec fn is_motion(self) -> bool {
        self is MouseMove || self is MouseMoveRelative || self is MouseMoveRelativeToWindow
    }

    pub open spec fn mode_spec(self) -> Mode {
        if self.is_motion() || self is ActivateWindow || self is FocusWindow {
            Mode::Async
        } else {
            Mode::Sync
        }
    }

    pub fn mode(&self) -> (r: Mode)
        ensures
            r == self.mode_spec(),
    {
        match self {
            Command::MouseMove { .. }
            | Command::MouseMoveRelative { .. }
            | Command::MouseMoveRelativeToWindow { .. }
            | Command::ActivateWindow { .. }
            | Command::FocusWindow { .. } => Mode::Async,
            _ => Mode::Sync,
        }
    }

    pub fn is_motion_command(&self) -> (r: bool)
        ensures
            r == self.is_motion(),
    {
        match self {
            Command::MouseMove { .. }
            | Command::MouseMoveRelative { .. }
            | Command::MouseMoveRelativeToWindow { .. } => true,
            _ => false,
        }
    }
}

/// A normalized invocation: what to run, and on which display.
#[derive(Debug)]
pub struct Call {
    pub command: Command,
    pub display: DisplaySelector,
}

/// The command that a raw command normalizes to, once its text is valid.
pub open spec fn command_of(c: RawCommand) -> Command {
    match c {
        RawCommand::Key { action, keys, window, delay } => Command::Key {
            action,
            keys: KeySequence::spec_new(keys),
            window: target_window_of(window),
            delay: delay_of(delay),
        },
        RawCommand::Button { action, button, window } => Command::Button {
            action,
            button,
            window: target_window_of(window),
        },
        RawCommand::KillWindow { window } => Command::KillWindow { window },
        RawCommand::GetPidWindow { window } => Command::GetPidWindow { window },
        RawCommand::Query { query } => Command::Query { query },
        RawCommand::MouseMove { x, y, screen } => Command::MouseMove { x, y, screen: screen_of(screen) },
        RawCommand::MouseMoveRelative { x, y } => Command::MouseMoveRelative { x, y },
        RawCommand::MouseMoveRelativeToWindow { x, y, window } => Command::MouseMoveRelativeToWindow {
            x,
            y,
            window: window.value(),
        },
        RawCommand::ActivateWindow { window } => Command::ActivateWindow { window },
        RawCommand::FocusWindow { window } => Command::FocusWindow { window },
    }
}

/// The key text of a raw command, where it has one.
pub open spec fn key_text(c: RawCommand) -> Option<Seq<char>> {
    match c {
        RawCommand::Key { keys, .. } => Some(keys@),
        _ => None,
    }
}

/// The display name of a request, where it has one.
pub open spec fn display_text(d: Arg<String>) -> Option<Seq<char>> {
    match d {
        Arg::Given(s) => Some(s@),
        _ => None,
    }
}

/// A text argument that is absent or free of terminator bytes.
pub open spec fn text_ok(t: Option<Seq<char>>) -> bool {
    match t {
        Some(s) => nul_free(bytes_of(s)),
        None => true,
    }
}

/// The validation error of a text argument that holds a terminator byte.
pub open spec fn text_error(s: Seq<char>) -> IsimError {
    IsimError::Validation { position: first_nul_of(bytes_of(s)) as usize }
}

/// What normalizing a request gives: the key text is checked first, then
/// the display name; a valid request resolves every optional argument.
pub open spec fn normalize_spec(req: Request) -> Result<Call, IsimError> {
    if !text_ok(key_text(req.command)) {
        Err(text_error(key_text(req.command)->0))
    } else if !text_ok(display_text(req.display)) {
        Err(text_error(display_text(req.display)->0))
    } else {
        Ok(Call { command: command_of(req.command), display: display_of(req.display) })
    }
}

/// Validates and resolves every argument of a request before any backend call.
pub fn normalize(req: Request) -> (r: Result<Call, IsimError>)
    ensures
        r == normalize_spec(req),
{
    let Request { command, display: disp } = req;
    let command = match command {
        RawCommand::Key { action, keys, window, delay: d } => {
            let keys = match KeySequence::new(keys) {
                Ok(k) => k,
                Err(e) => return Err(e),
            };
            Command::Key { action, keys, window: target_window(window), delay: delay(d) }
        },
        RawCommand::Button { action, button, window } => Command::Button {
            action,
            button,
            window: target_window(window),
        },
        RawCommand::KillWindow { window } => Command::KillWindow { window },
        RawCommand::GetPidWindow { window } => Command::GetPidWindow { window },
        RawCommand::Query { query } => Command::Query { query },
        RawCommand::MouseMove { x, y, screen: s } => Command::MouseMove { x, y, screen: screen(s) },
        RawCommand::MouseMoveRelative { x, y } => Command::MouseMoveRelative { x, y },
        RawCommand::MouseMoveRelativeToWindow { x, y, window } => Command::MouseMoveRelativeToWindow {
            x,
            y,
            window: motion_window(window),
        },
        RawCommand::ActivateWindow { window } => Command::ActivateWindow { window },
        RawCommand::FocusWindow { window } => Command::FocusWindow { window },
    };
    match display(disp) {
        Ok(d) => Ok(Call { command, display: d }),
        Err(e) => Err(e),
    }
}

} // verus!
