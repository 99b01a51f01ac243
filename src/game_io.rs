//! The message set of the front end with a debug key.

use vstd::prelude::*;

pub use crate::game_handler::{Key, Movement, RotationDirection};

verus! {

/// One event handed from the input side to the game.
#[derive(Debug, Clone, Copy, PartialEq, Eq, Structural)]
pub enum Message {
    /// Close the game
    QuitGame,
    /// Move the piece
    Move(Movement),
    /// Debug
    Debug,
    /// New piece
    NewPiece,
}

/// The message bound to a key, if any: as in
/// [`crate::game_handler::key_message`], with `r` bound to the debug message.
pub open spec fn key_message(key: Key) -> Option<Message> {
    match key {
        Key::Char('q') => Some(Message::QuitGame),
        Key::Char('r') => Some(Message::Debug),
        Key::Char('n') => Some(Message::NewPiece),
        Key::Char('z') => Some(Message::Move(Movement::Rotate(RotationDirection::Counterclockwise))),
        Key::Up => Some(Message::Move(Movement::Rotate(RotationDirection::Clockwise))),
        Key::Left => Some(Message::Move(Movement::Left)),
        Key::Right => Some(Message::Move(Movement::Right)),
        Key::Down => Some(Message::Move(Movement::Down)),
        Key::Enter => Some(Message::Move(Movement::Drop)),
        _ => None,
    }
}

/// The message that a key press sends, or nothing for an unbound key.
pub fn message_for_key(key: Key) -> (r: Option<Message>)
    ensures
        r == key_message(key),
{
    match key {
        Key::Char(c) => match c {
            'q' => Some(Message::QuitGame),
            'r' => Some(Message::Debug),
            'n' => Some(Message::NewPiece),
            'z' => Some(Message::Move(Movement::Rotate(RotationDirection::Counterclockwise))),
            _ => None,
        },
        Key::Up => Some(Message::Move(Movement::Rotate(RotationDirection::Clockwise))),
        Key::Left => Some(Message::Move(Movement::Left)),
        Key::Right => Some(Message::Move(Movement::Right)),
        Key::Down => Some(Message::Move(Movement::Down)),
        Key::Enter => Some(Message::Move(Movement::Drop)),
        Key::Other => None,
    }
}

} // verus!
