//! Rules engine of a falling-block puzzle game: a fixed-size playfield, the
//! falling piece with its moves, rotations and wall kicks, and a bag-based
//! sequencer of upcoming pieces.

pub mod board;
pub mod constraint;
pub mod game;
pub mod game_handler;
pub mod game_io;
pub mod matrix;
pub mod tetramino;
