//! Failures reported by the pool, the crash engine and the third-party ledger.

use vstd::prelude::*;

verus! {

/// Why an operation of the pool, the crash engine or the third-party ledger
/// was rejected.
#[derive(Clone, Copy, Debug, PartialEq, Eq, Structural)]
pub enum JogoError {
    /// A fraction was built with a zero denominator.
    InvalidFraction,
    /// A product of fractions does not fit the 64-bit representation.
    FractionOverflow,
    /// The attached instruction is not a single-signature Ed25519 check.
    InvalidEd25519Instruction,
    /// The attestation was signed by another key than the expected one.
    IncorrectEd25519Signer,
    /// The attested message differs from the expected one.
    InvalidEd25519Message,
    /// A deposit of zero.
    InvalidDepositAmount,
    /// A withdrawal of zero shares, or of more shares than exist.
    InvalidWithdrawAmount,
    /// The pool cannot cover what the operation would take out of it.
    InsufficientLiquidity,
    /// The oracle has not delivered the randomness of the round yet.
    RandomnessNotFulfilled,
    /// The winning rate is not strictly between zero and one.
    InvalidWinningRate,
    /// The maximal odd is not above one.
    InvalidOdd,
    /// The cash-out point has a wrong number of decimals.
    InvalidPointDecimals,
    /// A stake of zero, or one whose reserve cannot be represented.
    InvalidStakeAmount,
    /// The signed cash-out message is malformed or names another bet.
    InvalidBetMessage,
    /// The bet carries no cash-out point and none was attested.
    NoBetSignature,
    /// The signed result message is malformed or names another player state.
    InvalidThirdPartyPlayerMessage,
    /// The nonce of the signed result is not the player's current nonce.
    InvalidThirdPartyPlayerNonce,
}

impl JogoError {
    /// The human-readable message of the error.
    pub fn message(&self) -> (text: &'static str)
        ensures
            text@ == self.message_spec(),
    {
        match self {
            JogoError::InvalidFraction => "Invalid fraction",
            JogoError::FractionOverflow => "Fraction overflow",
            JogoError::InvalidEd25519Instruction => "Invalid Ed25519 instruction data",
            JogoError::IncorrectEd25519Signer => "Incorrect Ed25519 signer",
            JogoError::InvalidEd25519Message => "Invalid Ed25519 message",
            JogoError::InvalidDepositAmount => "Invalid deposit amount",
            JogoError::InvalidWithdrawAmount => "Invalid withdraw amount",
            JogoError::InsufficientLiquidity => "Insufficient liquidity",
            JogoError::RandomnessNotFulfilled => "Randomness not fulfilled",
            JogoError::InvalidWinningRate => "Invalid winning rate",
            JogoError::InvalidOdd => "Invalid odd",
            JogoError::InvalidPointDecimals => "Invalid point decimals",
            JogoError::InvalidStakeAmount => "Invalid stake amount",
            JogoError::InvalidBetMessage => "Invalid bet message",
            JogoError::NoBetSignature => "No bet signature",
            JogoError::InvalidThirdPartyPlayerMessage => "Invalid 3rd-party player message",
            JogoError::InvalidThirdPartyPlayerNonce => "Invalid 3rd-party player nonce",
        }
    }

    /// The message of each error, as a sequence of characters.
    pub open spec fn message_spec(&self) -> Seq<char> {
        match self {
            JogoError::InvalidFraction => "Invalid fraction"@,
            JogoError::FractionOverflow => "Fraction overflow"@,
            JogoError::InvalidEd25519Instruction => "Invalid Ed25519 instruction data"@,
            JogoError::IncorrectEd25519Signer => "Incorrect Ed25519 signer"@,
            JogoError::InvalidEd25519Message => "Invalid Ed25519 message"@,
            JogoError::InvalidDepositAmount => "Invalid deposit amount"@,
            JogoError::InvalidWithdrawAmount => "Invalid withdraw amount"@,
            JogoError::InsufficientLiquidity => "Insufficient liquidity"@,
            JogoError::RandomnessNotFulfilled => "Randomness not fulfilled"@,
            JogoError::InvalidWinningRate => "Invalid winning rate"@,
            JogoError::InvalidOdd => "Invalid odd"@,
            JogoError::InvalidPointDecimals => "Invalid point decimals"@,
            JogoError::InvalidStakeAmount => "Invalid stake amount"@,
            JogoError::InvalidBetMessage => "Invalid bet message"@,
            JogoError::NoBetSignature => "No bet signature"@,
            JogoError::InvalidThirdPartyPlayerMessage => "Invalid 3rd-party player message"@,
            JogoError::InvalidThirdPartyPlayerNonce => "Invalid 3rd-party player nonce"@,
        }
    }
}

} // verus!
