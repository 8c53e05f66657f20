//! What the sports club decides when a club is opened or closed and when a
//! bet is placed, cancelled or settled. Moving the funds is left to the
//! caller.

use vstd::prelude::*;

use crate::math::fraction::widening_mul;
use crate::pubkey::Pubkey;
use crate::sports::admin::Admin;
use crate::sports::club::{Club, Credential, CredentialState, Game};
use crate::sports::error::SportsError;

verus! {

/// What the owner pays to the fee receiver for opening a club.
pub const CLUB_CREATION_FEE: u64 = 5_000_000;

/// The fee on winnings, in hundredths of a percent.
pub const SETTLE_FEE_POINT: u64 = 50;

/// The number of hundredths of a percent in the whole.
pub const BASIS_DIVISOR: u64 = 10000;

/// What a settlement pays: `fee` to the fee receiver and `receiving` to the
/// player, both from the club.
#[derive(Clone, Copy, Debug, PartialEq, Eq, Structural)]
pub struct Payout {
    pub fee: u64,
    pub receiving: u64,
}

/// The fee on a prize: half a percent, rounded down.
pub open spec fn fee_of(prize: u64) -> nat {
    (prize as nat) * (SETTLE_FEE_POINT as nat) / (BASIS_DIVISOR as nat)
}

/// What a bet pays: fee and rest of the lock where it won, nothing where it
/// lost.
pub open spec fn payout_of(win: bool, lock: u64) -> Payout {
    if win {
        Payout { fee: fee_of(lock) as u64, receiving: (lock - fee_of(lock)) as u64 }
    } else {
        Payout { fee: 0, receiving: 0 }
    }
}

/// The fee never exceeds the prize.
pub proof fn lemma_fee_bounded(prize: u64)
    ensures
        fee_of(prize) <= prize,
{
    assert((prize as nat) * 50 / 10000 <= prize) by (nonlinear_arith);
}

/// Splits a prize into the fee and what the player receives.
pub fn split_prize(prize: u64) -> (out: Payout)
    ensures
        out == payout_of(true, prize),
        out.fee + out.receiving == prize,
{
    proof {
        lemma_fee_bounded(prize);
    }
    let fee: u64 = (widening_mul(prize, SETTLE_FEE_POINT) / (BASIS_DIVISOR as u128)) as u64;
    Payout { fee, receiving: prize - fee }
}

/// Opens the club, unless it is open already, and returns what the owner
/// pays to the fee receiver for it: the creation fee for a new club, nothing
/// for one that was open, which stays as it was.
pub fn init_club(
    club: &mut Club,
    admin: Pubkey,
    owner: Pubkey,
    token_mint: Pubkey,
    identifier: [u8; 32],
) -> (fee: u64)
    ensures
        old(club).initialized ==> fee == 0 && *final(club) == *old(club),
        !old(club).initialized ==> fee == CLUB_CREATION_FEE && *final(club) == (Club {
            initialized: true,
            admin,
            owner,
            token_mint,
            identifier,
            staking: 0,
            liquidity: 0,
            locking_0: 0,
            locking_1: 0,
            locking_2: 0,
        }),
{
    if club.initialized {
        return 0;
    }
    *club = Club::new(admin, owner, token_mint, identifier);
    CLUB_CREATION_FEE
}

/// Closes a club, which takes the record away: `CannotCloseClub` exactly
/// when something is still staked or locked. The caller returns what the
/// club holds to its owner.
pub fn close_club(club: Club) -> (out: Result<(), SportsError>)
    ensures
        out is Ok <==> club.idle(),
        out matches Err(e) ==> e == SportsError::CannotCloseClub,
{
    if club.can_close() {
        Ok(())
    } else {
        Err(SportsError::CannotCloseClub)
    }
}

/// Starts a game of the club at address `club_key`.
pub fn start_game(club_key: Pubkey, identifier: [u8; 32]) -> (out: Game)
    ensures
        out == (Game { club: club_key, identifier, staking: 0 }),
{
    Game::new(club_key, identifier)
}

/// Closes a game, which takes the record away, and takes its stakes out of
/// the open stakes of the club.
///
/// Fails, leaving the club as it was, with `GameCannotClose` when the game
/// is cancelled while bets on it are open, and with `InvalidStakeAmount`
/// when the game holds more stakes than the club.
pub fn close_game(club: &mut Club, game: Game, cancel: bool) -> (out: Result<(), SportsError>)
    ensures
        out is Ok <==> (cancel ==> game.staking == 0) && game.staking <= old(club).staking,
        out matches Err(e) ==> *final(club) == *old(club) && e == (if cancel && game.staking
            != 0 {
            SportsError::GameCannotClose
        } else {
            SportsError::InvalidStakeAmount
        }),
        out is Ok ==> *final(club) == (Club {
            staking: (old(club).staking - game.staking) as u64,
            ..*old(club)
        }),
{
    if !game.can_close(cancel) {
        return Err(SportsError::GameCannotClose);
    }
    if game.staking > club.staking {
        return Err(SportsError::InvalidStakeAmount);
    }
    club.close_game(&game);
    Ok(())
}

/// Places a bet for `player` at the club with address `club_key` and returns
/// its credential. The caller moves `stake` from the player to the club.
///
/// Fails with `InvalidOperator` when `operator` is not authorized, and else
/// with the error of `Club::after_bet`; on failure the club stays as it was.
pub fn bet(
    admin: &Admin,
    club: &mut Club,
    operator: &Pubkey,
    club_key: Pubkey,
    player: Pubkey,
    identifier: [u8; 32],
    direction: u8,
    stake: u64,
    lock: u64,
) -> (out: Result<Credential, SportsError>)
    ensures
        old(club).wf() ==> final(club).wf(),
        out is Ok ==> final(club).solvent(),
        if !admin.authorizes(*operator) {
            out == Err::<Credential, SportsError>(SportsError::InvalidOperator) && *final(club)
                == *old(club)
        } else {
            match old(club).after_bet(direction, stake, lock) {
                Err(e) => out == Err::<Credential, SportsError>(e) && *final(club) == *old(club),
                Ok(next) => *final(club) == next && out == Ok::<Credential, SportsError>(
                    Credential {
                        club: club_key,
                        player,
                        identifier,
                        direction,
                        stake,
                        lock,
                        state: CredentialState::Open,
                    },
                ),
            }
        },
{
    if !admin.is_operator(operator) {
        return Err(SportsError::InvalidOperator);
    }
    if let Err(e) = club.bet(direction, stake, lock) {
        return Err(e);
    }
    Ok(
        Credential {
            club: club_key,
            player,
            identifier,
            direction,
            stake,
            lock,
            state: CredentialState::Open,
        },
    )
}

/// What cancelling a credential comes to: `CredentialClosed` for one that
/// is not open, the error of `Club::after_close_bet`, and else the club
/// afterwards.
pub open spec fn cancellation(club: Club, credential: &Credential) -> Result<Club, SportsError> {
    if credential.state != CredentialState::Open {
        Err(SportsError::CredentialClosed)
    } else {
        club.after_close_bet(credential.direction, credential.stake, credential.lock)
    }
}

/// Cancels an open credential and returns its stake, which the caller moves
/// from the club back to the player.
///
/// The club becomes that of `cancellation` and the credential is cancelled,
/// so that it can be neither cancelled nor settled again; on failure both
/// stay as they were.
pub fn close_bet(club: &mut Club, credential: &mut Credential) -> (out: Result<u64, SportsError>)
    ensures
        old(club).wf() ==> final(club).wf(),
        match cancellation(*old(club), old(credential)) {
            Err(e) => {
                &&& out == Err::<u64, SportsError>(e)
                &&& *final(club) == *old(club)
                &&& *final(credential) == *old(credential)
            },
            Ok(next) => {
                &&& out == Ok::<u64, SportsError>(old(credential).stake)
                &&& *final(club) == next
                &&& *final(credential) == (Credential {
                    state: CredentialState::Cancelled,
                    ..*old(credential)
                })
            },
        },
{
    if credential.state != CredentialState::Open {
        return Err(SportsError::CredentialClosed);
    }
    if let Err(e) = club.close_bet(credential) {
        return Err(e);
    }
    credential.state = CredentialState::Cancelled;
    Ok(credential.stake)
}

/// What settling a credential comes to when the outcome `direction` has
/// won: `InvalidOperator` for an operator that is not authorized,
/// `CredentialClosed` for a credential that is not open, the error of
/// `Club::after_settle`, and else the club afterwards and what is paid.
pub open spec fn settlement(
    admin: &Admin,
    club: Club,
    credential: &Credential,
    operator: Pubkey,
    direction: u8,
) -> Result<(Club, Payout), SportsError> {
    if !admin.authorizes(operator) {
        Err(SportsError::InvalidOperator)
    } else if credential.state != CredentialState::Open {
        Err(SportsError::CredentialClosed)
    } else {
        let win = direction == credential.direction;
        match club.after_settle(win, credential.direction, credential.lock) {
            Err(e) => Err(e),
            Ok(next) => Ok((next, payout_of(win, credential.lock))),
        }
    }
}

/// Settles an open credential once the outcome `direction` has won, and
/// returns what the caller pays from the club: the fee to the fee receiver,
/// the rest of the lock to the player.
///
/// The result is that of `settlement`. On success the credential is
/// settled, so that it can be neither cancelled nor settled again; on
/// failure club and credential stay as they were.
pub fn settle(
    admin: &Admin,
    club: &mut Club,
    credential: &mut Credential,
    operator: &Pubkey,
    direction: u8,
) -> (out: Result<Payout, SportsError>)
    ensures
        old(club).wf() ==> final(club).wf(),
        out is Ok ==> final(club).solvent(),
        match settlement(admin, *old(club), old(credential), *operator, direction) {
            Err(e) => {
                &&& out == Err::<Payout, SportsError>(e)
                &&& *final(club) == *old(club)
                &&& *final(credential) == *old(credential)
            },
            Ok((next, payout)) => {
                &&& out == Ok::<Payout, SportsError>(payout)
                &&& *final(club) == next
                &&& *final(credential) == (Credential {
                    state: CredentialState::Settled,
                    ..*old(credential)
                })
            },
        },
{
    if !admin.is_operator(operator) {
        return Err(SportsError::InvalidOperator);
    }
    if credential.state != CredentialState::Open {
        return Err(SportsError::CredentialClosed);
    }
    let win: bool = direction == credential.direction;
    if let Err(e) = club.settle(win, credential) {
        return Err(e);
    }
    credential.state = CredentialState::Settled;
    if win {
        Ok(split_prize(credential.lock))
    } else {
        Ok(Payout { fee: 0, receiving: 0 })
    }
}

/// A credential is consumed once: whatever the club and the outcome, one
/// that was cancelled or settled can be neither cancelled nor settled.
pub proof fn lemma_consumed_once(
    admin: &Admin,
    club: Club,
    credential: &Credential,
    operator: Pubkey,
    direction: u8,
)
    requires
        credential.state != CredentialState::Open,
    ensures
        settlement(admin, club, credential, operator, direction) is Err,
        cancellation(club, credential) is Err,
{
}

} // verus!
