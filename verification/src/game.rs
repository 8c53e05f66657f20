//! The club game: a market with three outcomes whose owner provides the
//! liquidity, and whose bets operators place and settle.

pub mod admin;
pub mod club;
pub mod error;
pub mod instructions;
pub mod player;
