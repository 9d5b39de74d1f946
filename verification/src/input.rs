//! From key events to commands.
//!
//! The application reads raw terminal events and hands each one over as an
//! [`InputEvent`]; this module decides what, if anything, the event means.

use vstd::prelude::*;

verus! {

/// The keys the player tells apart. Every other key is `Other`.
#[derive(Clone, Copy, Debug, PartialEq, Eq, Structural)]
pub enum Key {
    Enter,
    Right,
    Up,
    Down,
    Left,
    Esc,
    Char(char),
    Other,
}

/// Whether a key went down, is held, or came up.
#[derive(Clone, Copy, Debug, PartialEq, Eq, Structural)]
pub enum KeyPhase {
    Press,
    Repeat,
    Release,
}

/// One event read from the terminal.
#[derive(Clone, Copy, Debug, PartialEq, Eq, Structural)]
pub enum InputEvent {
    Key { key: Key, phase: KeyPhase },
    /// Anything that is no key event: mouse, resize, focus, paste.
    Other,
}

/// A failed read from the input device.
#[derive(Clone, Copy, Debug, PartialEq, Eq, Structural)]
pub struct InputError;

/// What a key press asks for.
#[derive(Clone, Copy, Debug, PartialEq, Eq, Structural)]
pub enum Command {
    Up,
    Down,
    Select,
    Back,
    Quit,
    Pause,
}

/// The two ways of listening: in a menu, and while a track plays.
#[derive(Clone, Copy, Debug, PartialEq, Eq, Structural)]
pub enum ListenMode {
    Menu,
    Transport,
}

/// The command a pressed key stands for, if it stands for one.
///
/// Right arrow and Enter select, the vertical arrows move, left arrow goes
/// back, Esc and `q` quit. While a track plays `p` pauses as well.
pub open spec fn command_of(mode: ListenMode, key: Key) -> Option<Command> {
    match key {
        Key::Enter | Key::Right => Some(Command::Select),
        Key::Up => Some(Command::Up),
        Key::Down => Some(Command::Down),
        Key::Left => Some(Command::Back),
        Key::Esc => Some(Command::Quit),
        Key::Char(c) => if c == 'q' {
            Some(Command::Quit)
        } else if c == 'p' && mode == ListenMode::Transport {
            Some(Command::Pause)
        } else {
            None
        },
        Key::Other => None,
    }
}

/// What one reading yields: the command of a recognized key press, and
/// nothing for a failed read, an event that is no key press, or a key
/// without a meaning.
pub open spec fn heard(mode: ListenMode, reading: Result<InputEvent, InputError>) -> Option<Command> {
    match reading {
        Ok(InputEvent::Key { key, phase: KeyPhase::Press }) => command_of(mode, key),
        _ => None,
    }
}

/// Maps a pressed key to its command in the given mode.
pub fn recognize(mode: ListenMode, key: Key) -> (res: Option<Command>)
    ensures
        res == command_of(mode, key),
{
    match key {
        Key::Enter => Some(Command::Select),
        Key::Right => Some(Command::Select),
        Key::Up => Some(Command::Up),
        Key::Down => Some(Command::Down),
        Key::Left => Some(Command::Back),
        Key::Esc => Some(Command::Quit),
        Key::Char(c) => {
            if c == 'q' {
                Some(Command::Quit)
            } else if c == 'p' {
                match mode {
                    ListenMode::Transport => Some(Command::Pause),
                    ListenMode::Menu => None,
                }
            } else {
                None
            }
        },
        Key::Other => None,
    }
}

/// Decides on one reading of the input device. `None` tells the listener to
/// read again: read failures and unrecognized events are passed over.
pub fn listen(mode: ListenMode, reading: Result<InputEvent, InputError>) -> (res: Option<Command>)
    ensures
        res == heard(mode, reading),
{
    match reading {
        Ok(InputEvent::Key { key, phase }) => match phase {
            KeyPhase::Press => recognize(mode, key),
            _ => None,
        },
        _ => None,
    }
}

} // verus!
