//! Keys, as far as the sign-in screens tell them apart.

use vstd::prelude::*;

verus! {

/// The key of a key event; `Other` stands for every key the screens do not react to.
#[derive(Clone, Copy, Debug, PartialEq, Eq)]
pub enum KeyCode {
    Up,
    Down,
    Left,
    Right,
    Enter,
    Esc,
    Backspace,
    Char(char),
    Other,
}

/// A key event: the key, whether it is a press (not a repeat or a release), and the modifiers
/// that keep a character from being typed.
#[derive(Clone, Copy, Debug, PartialEq, Eq)]
pub struct KeyEvent {
    pub code: KeyCode,
    pub is_press: bool,
    pub with_super: bool,
    pub with_control: bool,
    pub with_alt: bool,
}

impl KeyEvent {
    /// The event types its character: it is a press without super, control or alt.
    pub open spec fn types(self) -> bool {
        self.is_press && !self.with_super && !self.with_control && !self.with_alt
    }
}

} // verus!
