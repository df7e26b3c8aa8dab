//! Key presses of the terminal interface as they arrive on the session's
//! channel.
use vstd::prelude::*;

verus! {

/// One key press.
#[derive(Clone, Copy, Debug, PartialEq, Eq, Structural)]
pub enum Input {
    Char(char),
    Up,
    Down,
    Delete,
    Esc,
    Enter,
    Backspace,
    CtrlP,
    Other,
}

impl Input {
    /// The key press that a chunk of terminal bytes stands for. A single
    /// printable ASCII byte is that character; the escape sequences of the
    /// arrow and delete keys and a few control bytes have a variant of their
    /// own; anything else is `Other`.
    pub open spec fn decoded(bytes: Seq<u8>) -> Input {
        if bytes.len() == 1 && 33 <= bytes[0] <= 126 {
            Input::Char(bytes[0] as char)
        } else if bytes =~= seq![27u8] {
            Input::Esc
        } else if bytes =~= seq![27u8, 91u8, 65u8] {
            Input::Up
        } else if bytes =~= seq![27u8, 91u8, 66u8] {
            Input::Down
        } else if bytes =~= seq![27u8, 91u8, 51u8, 126u8] {
            Input::Delete
        } else if bytes =~= seq![13u8] {
            Input::Enter
        } else if bytes =~= seq![16u8] {
            Input::CtrlP
        } else if bytes =~= seq![127u8] {
            Input::Backspace
        } else {
            Input::Other
        }
    }

    pub fn decode(bytes: &[u8]) -> (r: Input)
        ensures
            r == Input::decoded(bytes@),
    {
        let n = bytes.len();
        if n == 1 {
            let c: u8 = bytes[0];
            if 33 <= c && c <= 126 {
                Input::Char(c as char)
            } else if c == 27 {
                Input::Esc
            } else if c == 13 {
                Input::Enter
            } else if c == 16 {
                Input::CtrlP
            } else if c == 127 {
                Input::Backspace
            } else {
                Input::Other
            }
        } else if n == 3 && bytes[0] == 27 && bytes[1] == 91 && bytes[2] == 65 {
            Input::Up
        } else if n == 3 && bytes[0] == 27 && bytes[1] == 91 && bytes[2] == 66 {
            Input::Down
        } else if n == 4 && bytes[0] == 27 && bytes[1] == 91 && bytes[2] == 51 && bytes[3] == 126 {
            Input::Delete
        } else {
            Input::Other
        }
    }
}

impl From<&[u8]> for Input {
    fn from(value: &[u8]) -> (r: Input) {
        Input::decode(value)
    }
}

impl vstd::std_specs::convert::FromSpecImpl<&[u8]> for Input {
    open spec fn obeys_from_spec() -> bool {
        true
    }

    open spec fn from_spec(value: &[u8]) -> Input {
        Input::decoded(value@)
    }
}

} // verus!
