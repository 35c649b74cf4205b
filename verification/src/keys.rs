//! Key presses and editing modes.
use vstd::prelude::*;

verus! {

/// The mode that decides what a key does.
#[derive(Clone, Copy, Debug, PartialEq, Eq, Structural)]
pub enum Mode {
    /// Keys move the cursor and edit whole lines.
    Normal,
    /// Keys are typed into the text.
    Insert,
    /// Keys are typed into the command line.
    Command,
    /// Keys extend a selection of lines.
    Visual,
}

/// A key of the keyboard, as far as the editor tells keys apart.
#[derive(Clone, Copy, Debug, PartialEq, Eq, Structural)]
pub enum KeyCode {
    Esc,
    Enter,
    Backspace,
    Left,
    Right,
    Up,
    Down,
    /// A key that types a character.
    Char(char),
    /// Any other key.
    Other,
}

/// A key together with whether the control key was held down.
#[derive(Clone, Copy, Debug, PartialEq, Eq, Structural)]
pub struct KeyPress {
    pub code: KeyCode,
    pub control: bool,
}

} // verus!
