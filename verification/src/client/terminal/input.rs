//! What a terminal reports: keys and changes of its size.

use vstd::prelude::*;

verus! {

/// A key of the keyboard.
#[derive(Clone, Copy, Debug, PartialEq, Eq, Structural)]
pub enum KeyCode {
    Backspace,
    Enter,
    Left,
    Right,
    Up,
    Down,
    Home,
    End,
    PageUp,
    PageDown,
    Tab,
    BackTab,
    Delete,
    Insert,
    /// A function key, by its number.
    F(u8),
    /// A key that types a character.
    Char(char),
    Esc,
    /// Any other key.
    Other,
}

/// The keys that were held down while another one was pressed.
#[derive(Clone, Copy, Debug, PartialEq, Eq, Structural)]
pub struct KeyModifiers {
    pub shift: bool,
    pub control: bool,
    pub alt: bool,
}

/// A key press.
#[derive(Clone, Copy, Debug, PartialEq, Eq, Structural)]
pub struct KeyEvent {
    pub code: KeyCode,
    pub modifiers: KeyModifiers,
}

/// Something that the terminal reports.
#[derive(Clone, Copy, Debug, PartialEq, Eq, Structural)]
pub enum InputEvent {
    KeyPressed(KeyEvent),
    /// The terminal now has this many columns and rows.
    ResizeDisplay(u16, u16),
}

impl KeyModifiers {
    /// No key held down.
    pub fn none() -> (modifiers: KeyModifiers)
        ensures
            modifiers == (KeyModifiers { shift: false, control: false, alt: false }),
    {
        KeyModifiers { shift: false, control: false, alt: false }
    }
}

impl KeyEvent {
    /// The press of a key with nothing else held down.
    pub fn plain(code: KeyCode) -> (event: KeyEvent)
        ensures
            event == (KeyEvent {
                code,
                modifiers: KeyModifiers { shift: false, control: false, alt: false },
            }),
    {
        KeyEvent { code, modifiers: KeyModifiers::none() }
    }
}

} // verus!
