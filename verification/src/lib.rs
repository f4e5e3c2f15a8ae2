//! A chess rules engine.
//!
//! Given a position and a requested move in structured form, the engine decides
//! whether the move is legal, applies it, and keeps what later decisions depend
//! on: where each king stands and which side may still castle.
//!
//! - [`types`]: squares, sides, pieces, commands and the reasons for which a
//!   command is turned down.
//! - [`board`]: the position and the moves of single pieces on it.
//! - [`legality`]: how each kind of piece moves and whether its way is free.
//! - [`attack`]: attacked squares, and moves that would leave the mover's king
//!   attacked.
//! - [`resolver`]: carrying out moves, captures and castling.
//! - [`notation`]: reading commands written in shorthand.
//! - [`game`]: a position together with the side to move.
//! - [`picture`]: the board drawn as text.
//! - [`laws`]: what holds of the rules whatever the position and the command.
//!
//! The engine knows no en passant, no promotion, no double step of a pawn and
//! no capture by a pawn on the diagonal; it does not tell checkmate, stalemate
//! or draws.

pub mod types;
pub mod board;
pub mod legality;
pub mod attack;
pub mod resolver;
pub mod notation;
pub mod game;
pub mod picture;
pub mod laws;
