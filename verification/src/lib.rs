//! A two-player tic-tac-toe engine: the board, the move-input state machine
//! and the game state machine, as pure functions with proved contracts.

pub mod action;
pub mod board;
pub mod coordinate;
pub mod engine;
pub mod errors;
pub mod game_states;
pub mod player_move_states;
pub mod text;
