//! Core of a two-player Reversi service: a verified bitboard rules engine,
//! terminal-state evaluation, and the game-lifecycle state machine that a
//! request handler drives on every player action.

pub mod board;
pub mod codec;
pub mod engine;
pub mod game;
pub mod model;
pub mod session;
pub mod status;
