//! Accounting core of a custodial wagering ledger.
//!
//! The crate holds the rules of a pooled-liquidity betting system: exact
//! rational arithmetic for odds, the share accounting of the liquidity pool,
//! the hedged exposure of three-outcome markets, the crash-round engine and
//! the decoding of signed attestations. Every function is verified with Verus
//! against the contract written in its header; the few calls into outside
//! crates (SHA-256, the address of the signature program, the state of the
//! randomness oracle) stand behind wrappers whose contracts are stated and
//! trusted.
//!
//! The library moves no funds and stores nothing: each operation takes the
//! records it works on, changes them or leaves them as they were, and
//! returns what the caller has to pay.

pub mod custody;
pub mod error;
pub mod game;
pub mod hedge;
pub mod instructions;
pub mod math;
pub mod operators;
pub mod pubkey;
pub mod sports;
pub mod state;
