//! The decisions behind each operation. Every function here takes the
//! records it works on and returns what the caller has to do with the funds.

pub mod crash;
pub mod third_party;

pub use crash::{close_crash_lock, create_crash_bet, settle_crash_bet, settle_crash_bet_at};
pub use third_party::{settle_third_party_player_state, ThirdPartyTransfer};
