//! Key presses, as the view-models read them.
use vstd::prelude::*;

verus! {

/// The key that was pressed.
#[derive(Clone, Copy, Debug, PartialEq, Eq, Structural)]
pub enum KeyCode {
    Char(char),
    Up,
    Down,
    Enter,
    Esc,
    PageUp,
    PageDown,
    Other,
}

/// The modifier keys held with it.
#[derive(Clone, Copy, Debug, PartialEq, Eq, Structural)]
pub enum Modifiers {
    Plain,
    Shift,
    Other,
}

#[derive(Clone, Copy, Debug, PartialEq, Eq, Structural)]
pub struct KeyPress {
    pub code: KeyCode,
    pub modifiers: Modifiers,
}

impl KeyPress {
    pub open spec fn is_char(self, c: char) -> bool {
        self.code == KeyCode::Char(c)
    }

    pub open spec fn is_plain_char(self, c: char) -> bool {
        self.code == KeyCode::Char(c) && self.modifiers == Modifiers::Plain
    }

    pub open spec fn is_shifted_char(self, c: char) -> bool {
        self.code == KeyCode::Char(c) && self.modifiers == Modifiers::Shift
    }

    pub fn char_is(&self, c: char) -> (r: bool)
        ensures
            r == self.is_char(c),
    {
        self.code == KeyCode::Char(c)
    }

    pub fn plain_char_is(&self, c: char) -> (r: bool)
        ensures
            r == self.is_plain_char(c),
    {
        self.code == KeyCode::Char(c) && self.modifiers == Modifiers::Plain
    }

    pub fn shifted_char_is(&self, c: char) -> (r: bool)
        ensures
            r == self.is_shifted_char(c),
    {
        self.code == KeyCode::Char(c) && self.modifiers == Modifiers::Shift
    }
}

/// A direction to move a selection or to scroll.
#[derive(Clone, Copy, Debug, PartialEq, Eq, Structural)]
pub enum Direction {
    Up,
    Down,
}

} // verus!
