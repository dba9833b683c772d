//! From keys and resizes to messages of the state machine.
use vstd::prelude::*;
use crate::model::{Message, Size};

verus! {

/// A pressed key.
#[derive(Clone, Copy, PartialEq, Eq, Structural, Debug)]
pub enum KeyCode {
    Home,
    End,
    Up,
    Down,
    PageUp,
    PageDown,
    Left,
    Right,
    Enter,
    Esc,
    Backspace,
    Char(char),
    /// Any other key.
    Other,
}

/// The modifier keys held with a key.
#[derive(Clone, Copy, PartialEq, Eq, Structural, Debug)]
pub enum Modifiers {
    /// No modifier.
    Plain,
    /// Shift alone.
    Shift,
    /// Control alone.
    Control,
    /// Any other combination.
    Other,
}

/// The message that a key press stands for, if any.
pub open spec fn key_message(modifiers: Modifiers, code: KeyCode) -> Option<Message> {
    match modifiers {
        Modifiers::Plain => match code {
            KeyCode::Home => Some(Message::First),
            KeyCode::End => Some(Message::Last),
            KeyCode::Up => Some(Message::ScrollUp),
            KeyCode::Down => Some(Message::ScrollDown),
            KeyCode::PageUp => Some(Message::PageUp),
            KeyCode::PageDown => Some(Message::PageDown),
            KeyCode::Left => Some(Message::ScrollLeft),
            KeyCode::Right => Some(Message::ScrollRight),
            KeyCode::Enter => Some(Message::Enter),
            KeyCode::Esc => Some(Message::Exit),
            KeyCode::Backspace => Some(Message::Backspace),
            KeyCode::Char(c) => if c == '/' {
                Some(Message::OpenFindTask)
            } else {
                Some(Message::CharacterInput(c))
            },
            KeyCode::Other => None,
        },
        Modifiers::Shift => match code {
            KeyCode::Char(c) => Some(Message::CharacterInput(c)),
            _ => None,
        },
        Modifiers::Control => match code {
            KeyCode::Char(c) => if c == 's' {
                Some(Message::SaveSettings)
            } else if c == 'f' {
                Some(Message::OpenFindTask)
            } else {
                None
            },
            _ => None,
        },
        Modifiers::Other => None,
    }
}

/// Maps a key press to a message: arrows scroll, Home and End jump, Enter
/// drills in, Esc goes back, `/` or Ctrl-F opens a search, Ctrl-S saves the
/// settings, and other characters are typed.
pub fn handle_key(modifiers: Modifiers, code: KeyCode) -> (r: Option<Message>)
    ensures
        r == key_message(modifiers, code),
{
    match modifiers {
        Modifiers::Plain => match code {
            KeyCode::Home => Some(Message::First),
            KeyCode::End => Some(Message::Last),
            KeyCode::Up => Some(Message::ScrollUp),
            KeyCode::Down => Some(Message::ScrollDown),
            KeyCode::PageUp => Some(Message::PageUp),
            KeyCode::PageDown => Some(Message::PageDown),
            KeyCode::Left => Some(Message::ScrollLeft),
            KeyCode::Right => Some(Message::ScrollRight),
            KeyCode::Enter => Some(Message::Enter),
            KeyCode::Esc => Some(Message::Exit),
            KeyCode::Char('/') => Some(Message::OpenFindTask),
            KeyCode::Backspace => Some(Message::Backspace),
            KeyCode::Char(c) => Some(Message::CharacterInput(c)),
            KeyCode::Other => None,
        },
        Modifiers::Shift => match code {
            KeyCode::Char(c) => Some(Message::CharacterInput(c)),
            _ => None,
        },
        Modifiers::Control => match code {
            KeyCode::Char('s') => Some(Message::SaveSettings),
            KeyCode::Char('f') => Some(Message::OpenFindTask),
            _ => None,
        },
        Modifiers::Other => None,
    }
}

/// The message for a new terminal size.
pub fn handle_resize(cols: u16, rows: u16) -> (r: Option<Message>)
    ensures
        r == Some(Message::Resized(Size { width: cols, height: rows })),
{
    Some(Message::Resized(Size { width: cols, height: rows }))
}

} // verus!
