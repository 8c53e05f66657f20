//! The records of the pool, the crash engine and the third-party ledger.

pub mod crash;
pub mod third_party;
pub mod vault;

pub use crash::{CrashBet, CrashGame, CrashLock};
pub use third_party::{ThirdPartyGame, ThirdPartyPlayerState};
pub use vault::Vault;
