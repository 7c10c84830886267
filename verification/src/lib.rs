//! Noughts and crosses on a three by three board, with the rules of play
//! stated as a mathematical model and the executable board proved against it.

pub mod board;
pub mod game;
pub mod grid;
pub mod laws;
pub mod marks;

pub use board::{Board, PreconditionViolation};
pub use game::{BoardMsg, GameState};
pub use marks::{EndType, PlayerTurn, TileState};
