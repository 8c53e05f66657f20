//! Games played elsewhere: the operator signs each result, and a nonce per
//! player keeps a result from being settled twice.

use vstd::prelude::*;

use crate::error::JogoError;
use crate::math::bytes::{read_u64_le, u64_le};
use crate::pubkey::Pubkey;

verus! {

/// A game played elsewhere: the pool that backs it and the operator that
/// signs its results.
#[derive(Clone, Copy, Debug)]
pub struct ThirdPartyGame {
    pub vault: Pubkey,
    pub operator: Pubkey,
}

/// What the ledger keeps per player: the nonce that the next result must
/// carry.
#[derive(Clone, Copy, Debug)]
pub struct ThirdPartyPlayerState {
    pub bump: u8,
    pub nonce: u64,
}

/// The length of a signed result: 32 bytes that name the player state, the
/// nonce in 8 bytes, one byte that says whether the player won, and the
/// amount in 8 bytes.
pub const RESULT_MESSAGE_LEN: usize = 49;

/// What a signed result says to the player state at address `info` whose
/// nonce is `nonce`.
///
/// `InvalidThirdPartyPlayerMessage` where the message has another length than
/// 49 or names another state; else `InvalidThirdPartyPlayerNonce` where its
/// nonce is not `nonce`; else `InvalidThirdPartyPlayerMessage` where the byte
/// at 40 is neither 0 nor 1; else whether the player won, and the amount.
pub open spec fn decode_result(info: Pubkey, nonce: u64, msg: Seq<u8>) -> Result<
    (bool, u64),
    JogoError,
> {
    if msg.len() != 49 || msg.subrange(0, 32) != info@ {
        Err(JogoError::InvalidThirdPartyPlayerMessage)
    } else if u64_le(msg.subrange(32, 40)) != nonce {
        Err(JogoError::InvalidThirdPartyPlayerNonce)
    } else if msg[40] > 1 {
        Err(JogoError::InvalidThirdPartyPlayerMessage)
    } else {
        Ok((msg[40] == 1, u64_le(msg.subrange(41, 49)) as u64))
    }
}

impl ThirdPartyGame {
    /// A game backed by `vault` whose results `operator` signs.
    pub fn new(vault: Pubkey, operator: Pubkey) -> (out: ThirdPartyGame)
        ensures
            out.vault == vault,
            out.operator == operator,
    {
        ThirdPartyGame { vault, operator }
    }
}

impl ThirdPartyPlayerState {
    /// The state of a player who has settled nothing yet.
    pub fn new(bump: u8) -> (out: ThirdPartyPlayerState)
        ensures
            out.bump == bump,
            out.nonce == 0,
    {
        ThirdPartyPlayerState { bump, nonce: 0 }
    }

    /// Reads a signed result addressed to the state at `info`: whether the
    /// player won, and the amount.
    pub fn unpack_result(&self, info: &Pubkey, msg: &[u8]) -> (out: Result<(bool, u64), JogoError>)
        ensures
            out == decode_result(*info, self.nonce, msg@),
    {
        if msg.len() != RESULT_MESSAGE_LEN {
            return Err(JogoError::InvalidThirdPartyPlayerMessage);
        }
        let msg_info = Pubkey::read(msg, 0);
        if msg_info != *info {
            return Err(JogoError::InvalidThirdPartyPlayerMessage);
        }
        let nonce: u64 = read_u64_le(msg, 32);
        if nonce != self.nonce {
            return Err(JogoError::InvalidThirdPartyPlayerNonce);
        }
        let win: bool = match msg[40] {
            0 => false,
            1 => true,
            _ => {
                return Err(JogoError::InvalidThirdPartyPlayerMessage);
            },
        };
        let amount: u64 = read_u64_le(msg, 41);
        Ok((win, amount))
    }

    /// Moves on to the next nonce.
    pub fn increase(&mut self)
        requires
            old(self).nonce < u64::MAX,
        ensures
            final(self).nonce == old(self).nonce + 1,
            final(self).bump == old(self).bump,
    {
        self.nonce += 1;
    }
}

} // verus!
