//! The sports club: the club game with games that group bets, cancellation
//! of bets, a floor on withdrawals and a fee on winnings.

pub mod admin;
pub mod club;
pub mod error;
pub mod instructions;
