use vstd::prelude::*;
use vstd::string::StringExecFns;

use crate::args::DisplaySelector;

verus! {

/// The backend operations whose nonzero status is reported as a failure.
#[derive(Debug, Clone, Copy, PartialEq, Eq)]
pub enum Operation {
    GetMouseLocation,
    MoveMouse,
    MoveMouseRelative,
    MoveMouseRelativeToWindow,
    GetWindowAtMouse,
    GetFocusedWindow,
    GetActiveWindow,
}

impl Operation {
    pub open spec fn name_spec(self) -> Seq<char> {
        match self {
            Operation::GetMouseLocation => "xdo_get_mouse_location"@,
            Operation::MoveMouse => "xdo_move_mouse"@,
            Operation::MoveMouseRelative => "xdo_move_mouse_relative"@,
            Operation::MoveMouseRelativeToWindow => "xdo_move_mouse_relative_to_window"@,
            Operation::GetWindowAtMouse => "xdo_get_window_at_mouse"@,
            Operation::GetFocusedWindow => "xdo_get_focused_window"@,
            Operation::GetActiveWindow => "xdo_get_active_window"@,
        }
    }

    /// The backend function's name, as it appears in messages.
    pub fn name(self) -> (r: &'static str)
        ensures
            r@ == self.name_spec(),
    {
        match self {
            Operation::GetMouseLocation => "xdo_get_mouse_location",
            Operation::MoveMouse => "xdo_move_mouse",
            Operation::MoveMouseRelative => "xdo_move_mouse_relative",
            Operation::MoveMouseRelativeToWindow => "xdo_move_mouse_relative_to_window",
            Operation::GetWindowAtMouse => "xdo_get_window_at_mouse",
            Operation::GetFocusedWindow => "xdo_get_focused_window",
            Operation::GetActiveWindow => "xdo_get_active_window",
        }
    }
}

/// Every way a command can fail.
#[derive(Debug, PartialEq, Eq)]
pub enum IsimError {
    /// A text argument holds a terminator byte at this byte position; no
    /// backend call was made.
    Validation { position: usize },
    /// The backend refused to open the display.
    Connection { display: DisplaySelector },
    /// A backend call returned a nonzero status.
    LibraryCall { operation: Operation, code: i32 },
    /// The backend reported no process id for the window.
    InvalidPid { pid: i32 },
}

/// The character of a decimal digit.
pub open spec fn digit_char(d: nat) -> char {
    if d == 0 {
        '0'
    } else if d == 1 {
        '1'
    } else if d == 2 {
        '2'
    } else if d == 3 {
        '3'
    } else if d == 4 {
        '4'
    } else if d == 5 {
        '5'
    } else if d == 6 {
        '6'
    } else if d == 7 {
        '7'
    } else if d == 8 {
        '8'
    } else {
        '9'
    }
}

/// The decimal digits of `n`, most significant first, without leading zeros.
pub open spec fn digits(n: nat) -> Seq<char>
    decreases n,
{
    if n < 10 {
        seq![digit_char(n)]
    } else {
        digits(n / 10) + seq![digit_char(n % 10)]
    }
}

/// The decimal text of an integer, with a leading minus sign when negative.
pub open spec fn decimal(n: int) -> Seq<char> {
    if n < 0 {
        seq!['-'] + digits((-n) as nat)
    } else {
        digits(n as nat)
    }
}

/// The human-readable message of an error.
pub open spec fn message_of(e: IsimError) -> Seq<char> {
    match e {
        IsimError::Validation { position } => "nul byte found in provided data at position: "@
            + digits(position as nat),
        IsimError::Connection { display } => match display {
            DisplaySelector::Default => "can't open the default display"@,
            DisplaySelector::Named(s) => "can't open display: "@ + s@,
        },
        IsimError::LibraryCall { operation, code } => "failed to "@ + operation.name_spec()
            + " : "@ + decimal(code as int),
        IsimError::InvalidPid { pid } => "invalid pid : ("@ + decimal(pid as int) + ")"@,
    }
}

fn digit_text(d: u64) -> (r: &'static str)
    requires
        d < 10,
    ensures
        r@ == seq![digit_char(d as nat)],
{
    proof {
        reveal_strlit("0");
        reveal_strlit("1");
        reveal_strlit("2");
        reveal_strlit("3");
        reveal_strlit("4");
        reveal_strlit("5");
        reveal_strlit("6");
        reveal_strlit("7");
        reveal_strlit("8");
        reveal_strlit("9");
    }
    if d == 0 {
        "0"
    } else if d == 1 {
        "1"
    } else if d == 2 {
        "2"
    } else if d == 3 {
        "3"
    } else if d == 4 {
        "4"
    } else if d == 5 {
        "5"
    } else if d == 6 {
        "6"
    } else if d == 7 {
        "7"
    } else if d == 8 {
        "8"
    } else {
        "9"
    }
}

/// Appends the decimal digits of `n` to `out`.
pub fn append_digits(out: &mut String, n: u64)
    ensures
        final(out)@ == old(out)@ + digits(n as nat),
    decreases n,
{
    if n >= 10 {
        append_digits(out, n / 10);
    }
    out.append(digit_text(n % 10));
    assert(final(out)@ =~= old(out)@ + digits(n as nat));
}

/// Appends the decimal text of `n` to `out`.
pub fn append_decimal(out: &mut String, n: i32)
    ensures
        final(out)@ == old(out)@ + decimal(n as int),
{
    proof {
        reveal_strlit("-");
    }
    if n < 0 {
        out.append("-");
        let m: u64 = (0i64 - n as i64) as u64;
        append_digits(out, m);
        assert(final(out)@ =~= old(out)@ + decimal(n as int));
    } else {
        append_digits(out, n as u64);
    }
}

impl IsimError {
    /// The message that tells which operation failed and with what code.
    pub fn message(&self) -> (r: String)
        ensures
            r@ == message_of(*self),
    {
        match self {
            IsimError::Validation { position } => {
                let mut s = String::from_str("nul byte found in provided data at position: ");
                append_digits(&mut s, *position as u64);
                s
            },
            IsimError::Connection { display } => match display {
                DisplaySelector::Default => String::from_str("can't open the default display"),
                DisplaySelector::Named(name) => {
                    let mut s = String::from_str("can't open display: ");
                    s.append(name.as_str());
                    s
                },
            },
            IsimError::LibraryCall { operation, code } => {
                let mut s = String::from_str("failed to ");
                s.append(operation.name());
                s.append(" : ");
                append_decimal(&mut s, *code);
                s
            },
            IsimError::InvalidPid { pid } => {
                let mut s = String::from_str("invalid pid : (");
                append_decimal(&mut s, *pid);
                s.append(")");
                s
            },
        }
    }
}

} // verus!
