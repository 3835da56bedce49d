//! A verified tic-tac-toe engine: the rules of the game, an exhaustive
//! minimax solver and a registry of concurrent sessions.
//!
//! - [`board`] holds the board, the players, the status of a board and the
//!   rule that accepts or rejects a move;
//! - [`solver`] holds the value of a game, the search that computes it and
//!   the engine's turn;
//! - [`session`] holds a full turn of human and engine, and the registry of
//!   the games in progress;
//! - [`play`] states what holds of every game that play can reach;
//! - [`draw`] proves that neither side can force a win;
//! - [`text`] renders games and names errors;
//! - [`equality`] gives games their `==`.

pub mod board;
pub mod draw;
pub mod equality;
pub mod play;
pub mod session;
pub mod solver;
pub mod text;
