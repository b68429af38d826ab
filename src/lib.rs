//! A two-player tic-tac-toe game with a wager held in escrow, as a verified
//! state machine: creation of the game record, turn-checked moves that take
//! each player's stake on their first move, win detection with payout, and
//! forfeiture when the player on turn lets the deadline pass.
pub mod board;
pub mod game;
pub mod laws;
