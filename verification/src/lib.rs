//! Tic-tac-toe for two players: the board, the win check, the players and the
//! turn-by-turn game state, each with a machine-checked contract.

pub mod board;
pub mod error;
pub mod game;
pub mod input;
pub mod players;
pub mod win_condition;
