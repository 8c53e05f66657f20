//! What the third-party ledger decides when a signed result is settled.

use vstd::prelude::*;

use crate::error::JogoError;
use crate::math::bytes::u64_le;
use crate::math::ed25519::{deserialize_ed25519_instruction, Instruction};
use crate::pubkey::Pubkey;
use crate::state::third_party::{decode_result, ThirdPartyGame, ThirdPartyPlayerState};
use crate::state::vault::Vault;

verus! {

/// The funds to move after a result has been settled.
#[derive(Clone, Copy, Debug, PartialEq, Eq, Structural)]
pub enum ThirdPartyTransfer {
    /// The amount was zero: nothing moves.
    Nothing,
    /// The player won: the pool pays the amount to the player.
    VaultPaysPlayer(u64),
    /// The player lost: the player pays the amount to the pool.
    PlayerPaysVault(u64),
}

/// The transfer that a result calls for.
pub open spec fn transfer_for(win: bool, amount: u64) -> ThirdPartyTransfer {
    if amount == 0 {
        ThirdPartyTransfer::Nothing
    } else if win {
        ThirdPartyTransfer::VaultPaysPlayer(amount)
    } else {
        ThirdPartyTransfer::PlayerPaysVault(amount)
    }
}

/// What settling a signed result comes to: the error of the attestation
/// where it is none by the game's operator, the error of the message where
/// it is no result for this player state and nonce,
/// `InvalidThirdPartyPlayerNonce` where the player has used up the last
/// nonce, the error of the pool where it cannot book the result, and else
/// whether the player won, and the amount.
pub open spec fn third_party_settlement(
    vault: Vault,
    game: ThirdPartyGame,
    player_state: ThirdPartyPlayerState,
    player_state_key: Pubkey,
    attestation: &Instruction,
) -> Result<(bool, u64), JogoError> {
    match attestation.attestation_error(game.operator) {
        Some(e) => Err(e),
        None => match decode_result(player_state_key, player_state.nonce, attestation.message()) {
            Err(e) => Err(e),
            Ok((win, amount)) => if player_state.nonce == u64::MAX {
                Err(JogoError::InvalidThirdPartyPlayerNonce)
            } else if vault.third_party_accepted(win, amount) {
                Ok((win, amount))
            } else if win {
                Err(JogoError::InsufficientLiquidity)
            } else {
                Err(JogoError::InvalidDepositAmount)
            },
        },
    }
}

/// Settles a result that the operator of `game` signed for the player state
/// at address `player_state_key`, and returns the funds to move.
///
/// On failure the pool and the player state stay as they were. On success
/// the nonce of the player state has grown by one, whatever the result, and
/// the pool has booked the win or the loss.
pub fn settle_third_party_player_state(
    vault: &mut Vault,
    game: &ThirdPartyGame,
    player_state: &mut ThirdPartyPlayerState,
    player_state_key: &Pubkey,
    attestation: &Instruction,
) -> (out: Result<ThirdPartyTransfer, JogoError>)
    requires
        old(vault).wf(),
    ensures
        final(vault).wf(),
        out is Ok ==> final(player_state).nonce == old(player_state).nonce + 1,
        out is Err ==> *final(player_state) == *old(player_state) && *final(vault) == *old(vault),
        match third_party_settlement(
            *old(vault),
            *game,
            *old(player_state),
            *player_state_key,
            attestation,
        ) {
            Err(e) => {
                &&& out == Err::<ThirdPartyTransfer, JogoError>(e)
                &&& *final(vault) == *old(vault)
                &&& *final(player_state) == *old(player_state)
            },
            Ok((win, amount)) => {
                &&& out == Ok::<ThirdPartyTransfer, JogoError>(transfer_for(win, amount))
                &&& final(player_state).nonce == old(player_state).nonce + 1
                &&& final(player_state).bump == old(player_state).bump
                &&& *final(vault) == (Vault {
                    liquidity: (if win {
                        old(vault).liquidity - amount
                    } else {
                        old(vault).liquidity + amount
                    }) as u64,
                    ..*old(vault)
                })
            },
        },
{
    let attested = match deserialize_ed25519_instruction(attestation) {
        Ok(attested) => attested,
        Err(e) => {
            return Err(e);
        },
    };
    if let Err(e) = attested.verify_signer(&game.operator) {
        return Err(e);
    }
    let (win, amount) = match player_state.unpack_result(player_state_key, attested.msg) {
        Ok(result) => result,
        Err(e) => {
            return Err(e);
        },
    };
    if player_state.nonce == u64::MAX {
        return Err(JogoError::InvalidThirdPartyPlayerNonce);
    }
    if let Err(e) = vault.settle_third_party(win, amount) {
        return Err(e);
    }
    player_state.increase();
    if amount == 0 {
        Ok(ThirdPartyTransfer::Nothing)
    } else if win {
        Ok(ThirdPartyTransfer::VaultPaysPlayer(amount))
    } else {
        Ok(ThirdPartyTransfer::PlayerPaysVault(amount))
    }
}

/// A result whose nonce is not the player's current nonce is never settled:
/// a message of the right length that the operator signed for this player
/// state is refused with `InvalidThirdPartyPlayerNonce`, whatever it says
/// and whatever the pool holds.
pub proof fn lemma_stale_nonce_refused(
    vault: Vault,
    game: ThirdPartyGame,
    player_state: ThirdPartyPlayerState,
    player_state_key: Pubkey,
    attestation: &Instruction,
)
    requires
        attestation.attestation_error(game.operator) is None,
        attestation.message().len() == 49,
        attestation.message().subrange(0, 32) == player_state_key@,
        u64_le(attestation.message().subrange(32, 40)) != player_state.nonce,
    ensures
        third_party_settlement(vault, game, player_state, player_state_key, attestation) == Err::<
            (bool, u64),
            JogoError,
        >(JogoError::InvalidThirdPartyPlayerNonce),
{
}

/// A result is settled once: after a settlement has succeeded, the same
/// message is refused with `InvalidThirdPartyPlayerNonce`, whatever the pool
/// holds then and whether the player won or lost, much or nothing.
pub proof fn lemma_replay_refused(
    vault: Vault,
    later_vault: Vault,
    game: ThirdPartyGame,
    player_state: ThirdPartyPlayerState,
    player_state_key: Pubkey,
    attestation: &Instruction,
)
    requires
        third_party_settlement(vault, game, player_state, player_state_key, attestation) is Ok,
    ensures
        player_state.nonce < u64::MAX,
        third_party_settlement(
            later_vault,
            game,
            ThirdPartyPlayerState { nonce: (player_state.nonce + 1) as u64, ..player_state },
            player_state_key,
            attestation,
        ) == Err::<(bool, u64), JogoError>(JogoError::InvalidThirdPartyPlayerNonce),
{
}

/// A result is settled only under the nonce it carries: whenever a
/// settlement succeeds, the message held the player's current nonce.
pub proof fn lemma_settled_nonce_current(
    vault: Vault,
    game: ThirdPartyGame,
    player_state: ThirdPartyPlayerState,
    player_state_key: Pubkey,
    attestation: &Instruction,
)
    requires
        third_party_settlement(vault, game, player_state, player_state_key, attestation) is Ok,
    ensures
        u64_le(attestation.message().subrange(32, 40)) == player_state.nonce,
{
}

} // verus!
