use vstd::prelude::*;

use crate::types::size::Size;

verus! {

/// The key of a keyboard event, as far as the editor tells keys apart.
#[derive(Clone, Copy, Debug, PartialEq, Eq, Structural)]
pub enum KeyCode {
    Up,
    Down,
    Left,
    Right,
    Home,
    End,
    PageUp,
    PageDown,
    Esc,
    Char(char),
    Other,
}

/// Whether a key went down, is held, or came up.
#[derive(Clone, Copy, Debug, PartialEq, Eq, Structural)]
pub enum KeyEventKind {
    Press,
    Repeat,
    Release,
}

#[derive(Clone, Copy, Debug, PartialEq, Eq, Structural)]
pub struct KeyEvent {
    pub code: KeyCode,
    pub kind: KeyEventKind,
}

/// One input event read from the terminal.
#[derive(Clone, Copy, Debug, PartialEq, Eq, Structural)]
pub enum InputEvent {
    Key(KeyEvent),
    Resize(Size),
    Mouse,
    FocusGained,
    FocusLost,
    Paste,
}

/// Why the editor's loop stopped on an input event.
#[derive(Clone, Copy, Debug, PartialEq, Eq, Structural)]
pub enum EventError {
    /// An event other than a keyboard event arrived.
    InvalidKeyEvent,
}

impl EventError {
    pub fn message(&self) -> (r: String)
        ensures
            r@ == seq!['I', 'n', 'v', 'a', 'l', 'i', 'd', ' ', 'k', 'e', 'y', ' ', 'e', 'v', 'e', 'n', 't'],
    {
        proof {
            reveal_strlit("Invalid key event");
        }
        let r = String::from_str("Invalid key event");
        assert(r@ =~= seq!['I', 'n', 'v', 'a', 'l', 'i', 'd', ' ', 'k', 'e', 'y', ' ', 'e', 'v', 'e', 'n', 't']);
        r
    }
}

/// The keys that move the cursor.
pub open spec fn is_movement_key(code: KeyCode) -> bool {
    match code {
        KeyCode::Up | KeyCode::Down | KeyCode::Left | KeyCode::Right | KeyCode::Home
        | KeyCode::End | KeyCode::PageUp | KeyCode::PageDown => true,
        _ => false,
    }
}

/// Only a key press triggers an action.
pub open spec fn is_press(event: KeyEvent) -> bool {
    event.kind == KeyEventKind::Press
}

/// The key event carried by `event`, or the error for any other kind of event.
pub open spec fn classify(event: InputEvent) -> Result<KeyEvent, EventError> {
    match event {
        InputEvent::Key(k) => Ok(k),
        _ => Err(EventError::InvalidKeyEvent),
    }
}

} // verus!
