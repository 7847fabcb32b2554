use vstd::prelude::*;
use vstd::utf8::encode_utf8;

use crate::error::IsimError;

verus! {

/// The window id that asks the backend for whichever window it considers current.
pub const CURRENT_WINDOW: u64 = 0;

/// The screen index that asks the backend for the current screen.
pub const CURRENT_SCREEN: i32 = 0;

/// An optional argument as the host hands it over: not passed at all,
/// passed as an explicit "no value" marker, or passed with a value.
#[derive(Debug, Clone, Copy, PartialEq, Eq)]
pub enum Arg<T> {
    Missing,
    NoValue,
    Given(T),
}

impl<T> Arg<T> {
    /// The value carried, if any; `Missing` and `NoValue` are alike.
    pub open spec fn value(self) -> Option<T> {
        match self {
            Arg::Given(v) => Some(v),
            _ => None,
        }
    }
}

/// The window a targeting command addresses.
pub open spec fn target_window_of(w: Arg<u64>) -> u64 {
    match w.value() {
        Some(id) => id,
        None => CURRENT_WINDOW,
    }
}

/// The screen a motion command addresses.
pub open spec fn screen_of(s: Arg<i32>) -> i32 {
    match s.value() {
        Some(n) => n,
        None => CURRENT_SCREEN,
    }
}

/// The delay between keystrokes, in microseconds.
pub open spec fn delay_of(d: Arg<u32>) -> u32 {
    match d.value() {
        Some(n) => n,
        None => 0,
    }
}

/// The UTF-8 bytes that a text is handed to the backend as.
pub open spec fn bytes_of(s: Seq<char>) -> Seq<u8> {
    encode_utf8(s)
}

/// A byte string with no terminator byte in it.
pub open spec fn nul_free(b: Seq<u8>) -> bool {
    forall|i: int| 0 <= i < b.len() ==> b[i] != 0
}

/// `p` is the position of the first terminator byte of `b`.
pub open spec fn is_first_nul(b: Seq<u8>, p: int) -> bool {
    &&& 0 <= p < b.len()
    &&& b[p] == 0
    &&& forall|i: int| 0 <= i < p ==> b[i] != 0
}

/// Resolves a window argument of a targeting command: no value means the current window.
pub fn target_window(w: Arg<u64>) -> (r: u64)
    ensures
        r == target_window_of(w),
{
    match w {
        Arg::Given(id) => id,
        _ => CURRENT_WINDOW,
    }
}

/// Resolves a window argument of a motion command, where no window is a mode of its own.
pub fn motion_window(w: Arg<u64>) -> (r: Option<u64>)
    ensures
        r == w.value(),
{
    match w {
        Arg::Given(id) => Some(id),
        _ => None,
    }
}

/// Resolves a screen argument: no value means the current screen.
pub fn screen(s: Arg<i32>) -> (r: i32)
    ensures
        r == screen_of(s),
{
    match s {
        Arg::Given(n) => n,
        _ => CURRENT_SCREEN,
    }
}

/// Resolves a delay argument: no value means no delay.
pub fn delay(d: Arg<u32>) -> (r: u32)
    ensures
        r == delay_of(d),
{
    match d {
        Arg::Given(n) => n,
        _ => 0,
    }
}

/// The position of the first terminator byte of `b`, where `b` has one.
pub open spec fn first_nul_of(b: Seq<u8>) -> int {
    choose|p: int| is_first_nul(b, p)
}

/// A byte string has at most one first terminator byte.
pub proof fn lemma_first_nul_unique(b: Seq<u8>, p: int)
    requires
        is_first_nul(b, p),
    ensures
        first_nul_of(b) == p,
{
    let q = first_nul_of(b);
    assert(is_first_nul(b, q));
    if q < p {
        assert(b[q] != 0);
    } else if p < q {
        assert(b[p] != 0);
    }
}

/// The position of the first terminator byte in the UTF-8 form of `s`, if any.
pub fn first_nul(s: &str) -> (r: Option<usize>)
    ensures
        match r {
            Some(p) => is_first_nul(bytes_of(s@), p as int),
            None => nul_free(bytes_of(s@)),
        },
{
    let b = s.as_bytes();
    let mut i: usize = 0;
    while i < b.len()
        invariant
            b@ == bytes_of(s@),
            i <= b@.len(),
            forall|j: int| 0 <= j < i ==> b@[j] != 0,
        decreases b@.len() - i,
    {
        if b[i] == 0 {
            return Some(i);
        }
        i = i + 1;
    }
    None
}

/// A key sequence whose UTF-8 form holds no terminator byte.
#[derive(Debug)]
pub struct KeySequence {
    text: String,
}

impl KeySequence {
    pub closed spec fn view(&self) -> Seq<char> {
        self.text@
    }

    /// The key sequence that holds `text`.
    pub closed spec fn spec_new(text: String) -> KeySequence {
        KeySequence { text }
    }

    pub closed spec fn wf(&self) -> bool {
        nul_free(bytes_of(self.text@))
    }

    /// Validates `text` as a key sequence; a terminator byte is a validation
    /// error naming its byte position.
    pub fn new(text: String) -> (r: Result<KeySequence, IsimError>)
        ensures
            match r {
                Ok(k) => {
                    &&& nul_free(bytes_of(text@))
                    &&& k == KeySequence::spec_new(text)
                    &&& k.wf()
                    &&& k.view() == text@
                },
                Err(e) => match e {
                    IsimError::Validation { position } => {
                        &&& !nul_free(bytes_of(text@))
                        &&& is_first_nul(bytes_of(text@), position as int)
                        &&& position as int == first_nul_of(bytes_of(text@))
                    },
                    _ => false,
                },
            },
    {
        match first_nul(text.as_str()) {
            Some(p) => {
                proof {
                    lemma_first_nul_unique(bytes_of(text@), p as int);
                }
                Err(IsimError::Validation { position: p })
            },
            None => Ok(KeySequence { text }),
        }
    }

    pub fn as_str(&self) -> (r: &str)
        ensures
            r@ == self.view(),
    {
        self.text.as_str()
    }

    pub fn duplicate(&self) -> (r: KeySequence)
        ensures
            r == *self,
    {
        KeySequence { text: self.text.clone() }
    }
}

/// Which backend display a session connects to.
#[derive(Debug, PartialEq, Eq)]
pub enum DisplaySelector {
    Default,
    Named(String),
}

impl DisplaySelector {
    pub fn duplicate(&self) -> (r: DisplaySelector)
        ensures
            r == *self,
    {
        match self {
            DisplaySelector::Default => DisplaySelector::Default,
            DisplaySelector::Named(s) => DisplaySelector::Named(s.clone()),
        }
    }
}

/// What a display argument normalizes to, when its text is valid.
pub open spec fn display_of(d: Arg<String>) -> DisplaySelector {
    match d {
        Arg::Given(s) => DisplaySelector::Named(s),
        _ => DisplaySelector::Default,
    }
}

/// Resolves a display argument: no value selects the default display; a
/// name whose UTF-8 form holds a terminator byte is a validation error.
pub fn display(d: Arg<String>) -> (r: Result<DisplaySelector, IsimError>)
    ensures
        match d {
            Arg::Given(s) => if nul_free(bytes_of(s@)) {
                r == Ok::<DisplaySelector, IsimError>(DisplaySelector::Named(s))
            } else {
                r == Err::<DisplaySelector, IsimError>(
                    IsimError::Validation { position: first_nul_of(bytes_of(s@)) as usize },
                )
            },
            _ => r == Ok::<DisplaySelector, IsimError>(DisplaySelector::Default),
        },
{
    match d {
        Arg::Given(s) => match first_nul(s.as_str()) {
            Some(p) => {
                proof {
                    lemma_first_nul_unique(bytes_of(s@), p as int);
                }
                Err(IsimError::Validation { position: p })
            },
            None => Ok(DisplaySelector::Named(s)),
        },
        _ => Ok(DisplaySelector::Default),
    }
}

} // verus!
