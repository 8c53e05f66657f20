//! Failures reported by the sports club.

use vstd::prelude::*;

verus! {

/// Why an operation of the sports club was rejected.
#[derive(Clone, Copy, Debug, PartialEq, Eq, Structural)]
pub enum SportsError {
    /// The signing operator is not on the administrator's list.
    InvalidOperator,
    /// The club still has stakes or locks outstanding.
    CannotCloseClub,
    /// A deposit of zero, or one that the club cannot represent.
    InvalidDepositAmount,
    /// A withdrawal of zero.
    InvalidWithdrawAmount,
    /// A stake that the club cannot represent, or one above what is staked.
    InvalidStakeAmount,
    /// A lock that the club cannot represent, or one above what is locked.
    InvalidLockAmount,
    /// The club cannot cover its exposure, or cannot pay.
    InsufficientLiquidity,
    /// The identifier is not the expected one.
    InvalidIdentifier,
    /// The game still has stakes outstanding.
    GameCannotClose,
    /// The outcome is none of 0, 1 and 2.
    InvalidDirection,
    /// The credential was cancelled or settled before.
    CredentialClosed,
}

impl SportsError {
    /// The message of each error, as a sequence of characters.
    pub open spec fn message_spec(&self) -> Seq<char> {
        match self {
            SportsError::InvalidOperator => "Invalid operator"@,
            SportsError::CannotCloseClub => "Cannot close club"@,
            SportsError::InvalidDepositAmount => "Invalid deposit amount"@,
            SportsError::InvalidWithdrawAmount => "Invalid withdraw amount"@,
            SportsError::InvalidStakeAmount => "Invalid stake amount"@,
            SportsError::InvalidLockAmount => "Invalid lock amount"@,
            SportsError::InsufficientLiquidity => "Insufficient liquidity"@,
            SportsError::InvalidIdentifier => "Invalid Identifier"@,
            SportsError::GameCannotClose => "Game can not close"@,
            SportsError::InvalidDirection => "Invalid direction"@,
            SportsError::CredentialClosed => "Credential closed"@,
        }
    }

    /// The human-readable message of the error.
    pub fn message(&self) -> (text: &'static str)
        ensures
            text@ == self.message_spec(),
    {
        match self {
            SportsError::InvalidOperator => "Invalid operator",
            SportsError::CannotCloseClub => "Cannot close club",
            SportsError::InvalidDepositAmount => "Invalid deposit amount",
            SportsError::InvalidWithdrawAmount => "Invalid withdraw amount",
            SportsError::InvalidStakeAmount => "Invalid stake amount",
            SportsError::InvalidLockAmount => "Invalid lock amount",
            SportsError::InsufficientLiquidity => "Insufficient liquidity",
            SportsError::InvalidIdentifier => "Invalid Identifier",
            SportsError::GameCannotClose => "Game can not close",
            SportsError::InvalidDirection => "Invalid direction",
            SportsError::CredentialClosed => "Credential closed",
        }
    }
}

} // verus!
