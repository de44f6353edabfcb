//! Input: from a key press to what the editor is asked to do.

use vstd::prelude::*;
use crate::error::EditError;

verus! {

/// A key of the keyboard, as far as the editor tells keys apart.
#[derive(Clone, Copy, Debug, PartialEq, Eq, Structural)]
pub enum Key {
    Char(char),
    Up,
    Down,
    Left,
    Right,
    Home,
    End,
    Backspace,
    Delete,
    Enter,
    /// Any other key.
    Other,
}

/// The modifier keys held down with a key, as far as the editor tells them
/// apart.
#[derive(Clone, Copy, Debug, PartialEq, Eq, Structural)]
pub enum Held {
    /// No modifier key.
    Nothing,
    /// The control key and no other.
    Control,
    /// Anything else.
    Other,
}

/// What the editor is asked to do.
#[derive(Clone, Copy, Debug, PartialEq, Eq, Structural)]
pub enum InputEvent {
    MoveUp,
    MoveDown,
    MoveLeft,
    MoveRight,
    Home,
    End,
    InsertChar(char),
    Enter,
    Backspace,
    Delete,
    Save,
    Quit,
}

/// The meaning of a key press. Control with `q` quits and control with `s`
/// saves. The arrow keys, Home, End, Backspace, Delete and Enter count only
/// with no modifier held. Every other character key types its character,
/// whatever is held with it. Nothing else has a meaning.
pub open spec fn meaning(key: Key, held: Held) -> Option<InputEvent> {
    match (key, held) {
        (Key::Char('q'), Held::Control) => Some(InputEvent::Quit),
        (Key::Char('s'), Held::Control) => Some(InputEvent::Save),
        (Key::Char(c), _) => Some(InputEvent::InsertChar(c)),
        (Key::Up, Held::Nothing) => Some(InputEvent::MoveUp),
        (Key::Down, Held::Nothing) => Some(InputEvent::MoveDown),
        (Key::Left, Held::Nothing) => Some(InputEvent::MoveLeft),
        (Key::Right, Held::Nothing) => Some(InputEvent::MoveRight),
        (Key::Home, Held::Nothing) => Some(InputEvent::Home),
        (Key::End, Held::Nothing) => Some(InputEvent::End),
        (Key::Backspace, Held::Nothing) => Some(InputEvent::Backspace),
        (Key::Delete, Held::Nothing) => Some(InputEvent::Delete),
        (Key::Enter, Held::Nothing) => Some(InputEvent::Enter),
        _ => None,
    }
}

/// Reads a key press. A press without a meaning is `Unsupported`; the caller
/// passes it over.
pub fn classify(key: Key, held: Held) -> (event: Result<InputEvent, EditError>)
    ensures
        event == (match meaning(key, held) {
            Some(e) => Ok::<InputEvent, EditError>(e),
            None => Err::<InputEvent, EditError>(EditError::Unsupported),
        }),
{
    let plain = held == Held::Nothing;
    match key {
        Key::Char(c) => {
            if held == Held::Control && c == 'q' {
                Ok(InputEvent::Quit)
            } else if held == Held::Control && c == 's' {
                Ok(InputEvent::Save)
            } else {
                Ok(InputEvent::InsertChar(c))
            }
        },
        Key::Up if plain => Ok(InputEvent::MoveUp),
        Key::Down if plain => Ok(InputEvent::MoveDown),
        Key::Left if plain => Ok(InputEvent::MoveLeft),
        Key::Right if plain => Ok(InputEvent::MoveRight),
        Key::Home if plain => Ok(InputEvent::Home),
        Key::End if plain => Ok(InputEvent::End),
        Key::Backspace if plain => Ok(InputEvent::Backspace),
        Key::Delete if plain => Ok(InputEvent::Delete),
        Key::Enter if plain => Ok(InputEvent::Enter),
        _ => Err(EditError::Unsupported),
    }
}

/// Raises a flag. A flag that is up stays up.
pub fn bool_toggle(bool_input: &mut bool)
    ensures
        *final(bool_input),
{
    if !*bool_input {
        *bool_input = !*bool_input;
    }
}

/// Notes a typed character and raises the flag that says one is waiting.
pub fn copy_char(char_input: &mut char, char_to_copy: char, char_changed: &mut bool)
    ensures
        *final(char_input) == char_to_copy,
        *final(char_changed),
{
    *char_input = char_to_copy;
    *char_changed = true;
}

} // verus!
