//! What the club game decides when an operator places or settles a bet.
//! Moving the funds is left to the caller.

use vstd::prelude::*;

use crate::game::admin::Admin;
use crate::game::club::{Club, Credential, CredentialState};
use crate::game::error::GameError;
use crate::pubkey::Pubkey;

verus! {

/// Places a bet for `player` at the club with address `club_key` and returns
/// its credential. The caller moves `stake` from the player to the club.
///
/// Fails with `InvalidOperator` when `operator` is not authorized, and else
/// with the error of `Club::after_bet`; on failure the club stays as it was.
pub fn bet(
    admin: &Admin,
    club: &mut Club,
    operator: &Pubkey,
    club_key: Pubkey,
    player: Pubkey,
    identifier: [u8; 32],
    direction: u8,
    stake: u64,
    lock: u64,
) -> (out: Result<Credential, GameError>)
    ensures
        old(club).wf() ==> final(club).wf(),
        out is Ok ==> final(club).solvent(),
        if !admin.authorizes(*operator) {
            out == Err::<Credential, GameError>(GameError::InvalidOperator) && *final(club) == *old(
                club,
            )
        } else {
            match old(club).after_bet(direction, stake, lock) {
                Err(e) => out == Err::<Credential, GameError>(e) && *final(club) == *old(club),
                Ok(next) => *final(club) == next && out == Ok::<Credential, GameError>(
                    Credential {
                        club: club_key,
                        player,
                        identifier,
                        direction,
                        stake,
                        lock,
                        state: CredentialState::Open,
                    },
                ),
            }
        },
{
    if !admin.is_operator(operator) {
        return Err(GameError::InvalidOperator);
    }
    if let Err(e) = club.bet(direction, stake, lock) {
        return Err(e);
    }
    Ok(
        Credential {
            club: club_key,
            player,
            identifier,
            direction,
            stake,
            lock,
            state: CredentialState::Open,
        },
    )
}

/// What settling a credential comes to when the outcome `direction` has
/// won: `InvalidOperator` for an operator that is not authorized,
/// `CredentialClosed` for a credential that is not open, the error of
/// `Club::after_settle`, and else the club afterwards and the payout, which
/// is the lock of a bet that won and nothing for one that lost.
pub open spec fn settlement(
    admin: &Admin,
    club: Club,
    credential: &Credential,
    operator: Pubkey,
    direction: u8,
) -> Result<(Club, u64), GameError> {
    if !admin.authorizes(operator) {
        Err(GameError::InvalidOperator)
    } else if credential.state != CredentialState::Open {
        Err(GameError::CredentialClosed)
    } else {
        let win = direction == credential.direction;
        match club.after_settle(win, credential.direction, credential.lock) {
            Err(e) => Err(e),
            Ok(next) => Ok(
                (
                    next,
                    if win {
                        credential.lock
                    } else {
                        0
                    },
                ),
            ),
        }
    }
}

/// Settles an open credential once the outcome `direction` has won, and
/// returns the payout, which the caller moves from the club to the player.
///
/// The result is that of `settlement`. On success the credential is
/// settled, so that it cannot be settled again; on failure club and
/// credential stay as they were.
pub fn settle(
    admin: &Admin,
    club: &mut Club,
    credential: &mut Credential,
    operator: &Pubkey,
    direction: u8,
) -> (out: Result<u64, GameError>)
    ensures
        old(club).wf() ==> final(club).wf(),
        out is Ok ==> final(club).solvent(),
        match settlement(admin, *old(club), old(credential), *operator, direction) {
            Err(e) => {
                &&& out == Err::<u64, GameError>(e)
                &&& *final(club) == *old(club)
                &&& *final(credential) == *old(credential)
            },
            Ok((next, payout)) => {
                &&& out == Ok::<u64, GameError>(payout)
                &&& *final(club) == next
                &&& *final(credential) == (Credential {
                    state: CredentialState::Settled,
                    ..*old(credential)
                })
            },
        },
{
    if !admin.is_operator(operator) {
        return Err(GameError::InvalidOperator);
    }
    if credential.state != CredentialState::Open {
        return Err(GameError::CredentialClosed);
    }
    let win: bool = direction == credential.direction;
    let locking: u64 = credential.lock;
    if let Err(e) = club.settle(win, credential.direction, locking) {
        return Err(e);
    }
    credential.state = CredentialState::Settled;
    if win {
        Ok(locking)
    } else {
        Ok(0)
    }
}

/// A credential is settled at most once: whatever the club and the outcome,
/// settling a credential that was settled before is refused.
pub proof fn lemma_settles_once(
    admin: &Admin,
    club: Club,
    credential: &Credential,
    operator: Pubkey,
    direction: u8,
)
    requires
        credential.state == CredentialState::Settled,
    ensures
        settlement(admin, club, credential, operator, direction) is Err,
{
}

} // verus!
