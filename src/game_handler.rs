//! Commands that drive the game, and the key bindings that produce them.

use vstd::prelude::*;

verus! {

/// A request to move the falling piece.
#[derive(Debug, Clone, Copy, PartialEq, Eq, Structural)]
pub enum Movement {
    Rotate(RotationDirection),
    Left,
    Right,
    Down,
    Drop,
}

/// The sense of a quarter turn.
#[derive(Debug, Clone, Copy, PartialEq, Eq, Structural)]
pub enum RotationDirection {
    Clockwise,
    Counterclockwise,
}

/// One event handed from the input side to the game.
#[derive(Debug, Clone, Copy, PartialEq, Eq, Structural)]
pub enum Message {
    /// Close the game
    QuitGame,
    /// Move the Tetrimino
    Move(Movement),
    /// New Tetrimino
    NewTetrimino,
}

/// A key press, as far as the game tells keys apart.
#[derive(Debug, Clone, Copy, PartialEq, Eq, Structural)]
pub enum Key {
    Char(char),
    Up,
    Left,
    Right,
    Down,
    Enter,
    Other,
}

/// The message bound to a key, if any: `q` quits, `n` asks for a new piece,
/// `z` and the up arrow turn the piece counterclockwise and clockwise, the
/// other arrows move it, and enter drops it.
pub open spec fn key_message(key: Key) -> Option<Message> {
    match key {
        Key::Char('q') => Some(Message::QuitGame),
        Key::Char('n') => Some(Message::NewTetrimino),
        Key::Char('z') => Some(Message::Move(Movement::Rotate(RotationDirection::Counterclockwise))),
        Key::Up => Some(Message::Move(Movement::Rotate(RotationDirection::Clockwise))),
        Key::Left => Some(Message::Move(Movement::Left)),
        Key::Right => Some(Message::Move(Movement::Right)),
        Key::Down => Some(Message::Move(Movement::Down)),
        Key::Enter => Some(Message::Move(Movement::Drop)),
        _ => None,
    }
}

/// The message that a key press sends, or nothing for an unbound key.
pub fn message_for_key(key: Key) -> (r: Option<Message>)
    ensures
        r == key_message(key),
{
    match key {
        Key::Char(c) => match c {
            'q' => Some(Message::QuitGame),
            'n' => Some(Message::NewTetrimino),
            'z' => Some(Message::Move(Movement::Rotate(RotationDirection::Counterclockwise))),
            _ => None,
        },
        Key::Up => Some(Message::Move(Movement::Rotate(RotationDirection::Clockwise))),
        Key::Left => Some(Message::Move(Movement::Left)),
        Key::Right => Some(Message::Move(Movement::Right)),
        Key::Down => Some(Message::Move(Movement::Down)),
        Key::Enter => Some(Message::Move(Movement::Drop)),
        Key::Other => None,
    }
}

} // verus!
