//! Failures reported by the club game.

use vstd::prelude::*;

verus! {

/// Why an operation of the club game was rejected.
#[derive(Clone, Copy, Debug, PartialEq, Eq, Structural)]
pub enum GameError {
    /// The signing operator is not on the administrator's list.
    InvalidOperator,
    /// The outcome is none of 0, 1 and 2.
    InvalidDirection,
    /// A deposit of zero, or one that the club cannot represent.
    InvalidDepositAmount,
    /// A withdrawal of zero.
    InvalidWithdrawAmount,
    /// A stake that the club cannot represent.
    InvalidStakeAmount,
    /// A lock that the club cannot represent, or one above what is locked.
    InvalidLockAmount,
    /// The club cannot cover its hedged exposure, or cannot pay.
    InsufficientLiquidity,
    /// The direction differs from the expected one.
    DirectionNotEquals,
    /// The player's bet round is not one ahead of the settle round.
    InvalidRound,
    /// The bet names another round than the player's bet round.
    MismatchedBetRound,
    /// The settlement names another round than the player's settle round.
    MismatchedSettleRound,
    /// The reward does not exceed the stake.
    InvalidRewardAmount,
    /// The credential was settled before.
    CredentialClosed,
}

impl GameError {
    /// The message of each error, as a sequence of characters.
    pub open spec fn message_spec(&self) -> Seq<char> {
        match self {
            GameError::InvalidOperator => "Invalid operator"@,
            GameError::InvalidDirection => "Invalid direction"@,
            GameError::InvalidDepositAmount => "Invalid deposit amount"@,
            GameError::InvalidWithdrawAmount => "Invalid withdraw amount"@,
            GameError::InvalidStakeAmount => "Invalid stake amount"@,
            GameError::InvalidLockAmount => "Invalid lock amount"@,
            GameError::InsufficientLiquidity => "Insufficient liquidity"@,
            GameError::DirectionNotEquals => "Direction not equals"@,
            GameError::InvalidRound => "Invalid round"@,
            GameError::MismatchedBetRound => "Mismatched bet round"@,
            GameError::MismatchedSettleRound => "Mismatched settle round"@,
            GameError::InvalidRewardAmount => "Invalid reward amount"@,
            GameError::CredentialClosed => "Credential closed"@,
        }
    }

    /// The human-readable message of the error.
    pub fn message(&self) -> (text: &'static str)
        ensures
            text@ == self.message_spec(),
    {
        match self {
            GameError::InvalidOperator => "Invalid operator",
            GameError::InvalidDirection => "Invalid direction",
            GameError::InvalidDepositAmount => "Invalid deposit amount",
            GameError::InvalidWithdrawAmount => "Invalid withdraw amount",
            GameError::InvalidStakeAmount => "Invalid stake amount",
            GameError::InvalidLockAmount => "Invalid lock amount",
            GameError::InsufficientLiquidity => "Insufficient liquidity",
            GameError::DirectionNotEquals => "Direction not equals",
            GameError::InvalidRound => "Invalid round",
            GameError::MismatchedBetRound => "Mismatched bet round",
            GameError::MismatchedSettleRound => "Mismatched settle round",
            GameError::InvalidRewardAmount => "Invalid reward amount",
            GameError::CredentialClosed => "Credential closed",
        }
    }
}

} // verus!
