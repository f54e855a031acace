//! A verified two-player tic-tac-toe engine.
//!
//! The library tracks player identities, whose turn it is, board occupancy,
//! and the terminal outcome (tie, or win with the identified winner). A game
//! is started once with two player identifiers and then accumulates moves
//! until a line of three equal signs is completed or the board fills up.
//! Persistence, identity checks and any surrounding transaction model are a
//! caller's concern: the engine receives plain values and hands back the
//! updated game or a typed error.

pub mod codec;
pub mod game;
