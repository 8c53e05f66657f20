//! What the crash game decides when a bet is placed, when it is settled and
//! when a lock is closed. Moving the funds is left to the caller.

use vstd::prelude::*;

use crate::error::JogoError;
use crate::math::ed25519::{deserialize_ed25519_instruction, Instruction};
use crate::math::hash::sha256;
use crate::pubkey::Pubkey;
use crate::state::crash::{crash_point_of, winning_of, CrashBet, CrashGame, CrashLock};
use crate::state::vault::Vault;

verus! {

/// The cash-out point of a bet at settlement: the point it was placed with,
/// or else the point that the operator attests for the bet at address
/// `bet_key`.
///
/// `NoBetSignature` where the bet has no point and no attestation comes with
/// it; the error of the attestation where it is none by the operator;
/// `InvalidBetMessage` where the attested message is not one for this bet.
pub open spec fn resolved_point(
    operator: Pubkey,
    placed: Option<u64>,
    bet_key: Pubkey,
    point_attestation: Option<&Instruction>,
) -> Result<u64, JogoError> {
    match placed {
        Some(point) => Ok(point),
        None => match point_attestation {
            None => Err(JogoError::NoBetSignature),
            Some(instruction) => match instruction.attestation_error(operator) {
                Some(e) => Err(e),
                None => match CrashBet::message_point(bet_key, instruction.message()) {
                    Some(point) => Ok(point),
                    None => Err(JogoError::InvalidBetMessage),
                },
            },
        },
    }
}

/// What settling a bet at a known crash point comes to: the error of the
/// cash-out point where it has none, `InsufficientLiquidity` where the pool
/// cannot settle the bet, and else what the bet wins.
pub open spec fn settlement_at(
    vault: Vault,
    operator: Pubkey,
    bet: CrashBet,
    bet_key: Pubkey,
    point_attestation: Option<&Instruction>,
    crash_point: u64,
) -> Result<u64, JogoError> {
    match resolved_point(operator, bet.point, bet_key, point_attestation) {
        Err(e) => Err(e),
        Ok(point) => {
            let winning = winning_of(bet.stake, bet.reserve, Some(point), crash_point) as u64;
            if vault.can_settle(bet.stake, bet.reserve, winning) {
                Ok(winning)
            } else {
                Err(JogoError::InsufficientLiquidity)
            }
        },
    }
}

/// What settling a bet comes to, given the digest of the randomness
/// signature: the error of the randomness attestation where it is none by
/// the operator, `InvalidEd25519Message` where it attests another value than
/// the lock's, the error of the crash point where it has none, and else the
/// settlement at that crash point.
pub open spec fn settlement(
    vault: Vault,
    game: CrashGame,
    lock: CrashLock,
    bet: CrashBet,
    bet_key: Pubkey,
    randomness_attestation: &Instruction,
    point_attestation: Option<&Instruction>,
    digest: Seq<u8>,
) -> Result<u64, JogoError> {
    match randomness_attestation.attestation_error(game.operator) {
        Some(e) => Err(e),
        None => if randomness_attestation.message() != lock.randomness@ {
            Err(JogoError::InvalidEd25519Message)
        } else {
            match crash_point_of(game.win_rate, digest) {
                Err(e) => Err(e),
                Ok(crash_point) => settlement_at(
                    vault,
                    game.operator,
                    bet,
                    bet_key,
                    point_attestation,
                    crash_point,
                ),
            }
        },
    }
}

/// The pool after a bet of `stake` and `reserve` has won `winning`.
pub open spec fn settled(vault: Vault, stake: u64, reserve: u64, winning: u64) -> Vault {
    Vault {
        stake: (vault.stake - stake) as u64,
        reserve: (vault.reserve - reserve) as u64,
        liquidity: (vault.liquidity + reserve - winning) as u64,
        ..vault
    }
}

/// Places a bet of `stake` against the open round of `game` and books it in
/// the pool: the reserve is `floor(max_odd * stake)`.
///
/// Fails, leaving the pool as it was, with `InvalidStakeAmount` when the
/// stake is zero or the pool or the bet cannot represent it, and otherwise
/// with `InsufficientLiquidity` when the pool cannot reserve the payout.
/// The caller moves `stake` from the player to the pool.
pub fn create_crash_bet(
    vault: &mut Vault,
    game: &CrashGame,
    bump: u8,
    stake: u64,
    point: Option<u64>,
) -> (out: Result<CrashBet, JogoError>)
    requires
        old(vault).wf(),
    ensures
        final(vault).wf(),
        out is Ok <==> {
            &&& stake > 0
            &&& game.max_odd.mul_floor(stake as nat) <= old(vault).liquidity + stake
            &&& old(vault).bet_representable(stake)
        },
        out matches Err(e) ==> *final(vault) == *old(vault) && e == (if stake > 0
            && game.max_odd.mul_floor(stake as nat) <= u64::MAX && old(vault).bet_representable(
            stake,
        ) {
            JogoError::InsufficientLiquidity
        } else {
            JogoError::InvalidStakeAmount
        }),
        out matches Ok(bet) ==> {
            &&& bet.bump == bump
            &&& bet.stake == stake
            &&& bet.reserve == game.max_odd.mul_floor(stake as nat)
            &&& bet.point == point
            &&& *final(vault) == (Vault {
                stake: (old(vault).stake + stake) as u64,
                liquidity: (old(vault).liquidity + stake - bet.reserve) as u64,
                reserve: (old(vault).reserve + bet.reserve) as u64,
                ..*old(vault)
            })
        },
{
    let bet = match game.bet(bump, stake, point) {
        Ok(bet) => bet,
        Err(e) => {
            return Err(e);
        },
    };
    match vault.bet(bet.stake, bet.reserve) {
        Ok(()) => Ok(bet),
        Err(e) => Err(e),
    }
}

/// Settles a bet against its locked round and returns what it wins, which
/// the caller pays from the pool to the player.
///
/// The randomness attestation must be one by the game's operator over the
/// random value of the lock; its signature determines the crash point. The
/// result is `settlement` at the digest of that signature. On failure the
/// pool stays as it was.
pub fn settle_crash_bet(
    vault: &mut Vault,
    game: &CrashGame,
    lock: &CrashLock,
    bet: CrashBet,
    bet_key: &Pubkey,
    randomness_attestation: &Instruction,
    point_attestation: Option<&Instruction>,
) -> (out: Result<u64, JogoError>)
    requires
        old(vault).wf(),
    ensures
        final(vault).wf(),
        out == settlement(
            *old(vault),
            *game,
            *lock,
            bet,
            *bet_key,
            randomness_attestation,
            point_attestation,
            sha256(randomness_attestation.signature()),
        ),
        out is Err ==> *final(vault) == *old(vault),
        out matches Ok(winning) ==> *final(vault) == settled(
            *old(vault),
            bet.stake,
            bet.reserve,
            winning,
        ),
{
    let attested = match deserialize_ed25519_instruction(randomness_attestation) {
        Ok(attested) => attested,
        Err(e) => {
            return Err(e);
        },
    };
    if let Err(e) = attested.verify_signer(&game.operator) {
        return Err(e);
    }
    if let Err(e) = attested.verify_message(lock.randomness.as_slice()) {
        return Err(e);
    }
    let crash_point: u64 = match game.crash_point(attested.sig) {
        Ok(crash_point) => crash_point,
        Err(e) => {
            return Err(e);
        },
    };
    settle_crash_bet_at(vault, &game.operator, bet, bet_key, point_attestation, crash_point)
}

/// Settles a bet at a known crash point and returns what it wins.
///
/// The result is `settlement_at`. On failure the pool stays as it was; on
/// success the stake of the bet leaves the open stakes, its reserve is
/// released, and what it did not win returns to the free capital.
pub fn settle_crash_bet_at(
    vault: &mut Vault,
    operator: &Pubkey,
    bet: CrashBet,
    bet_key: &Pubkey,
    point_attestation: Option<&Instruction>,
    crash_point: u64,
) -> (out: Result<u64, JogoError>)
    requires
        old(vault).wf(),
    ensures
        final(vault).wf(),
        out == settlement_at(*old(vault), *operator, bet, *bet_key, point_attestation, crash_point),
        out is Err ==> *final(vault) == *old(vault),
        out matches Ok(winning) ==> *final(vault) == settled(
            *old(vault),
            bet.stake,
            bet.reserve,
            winning,
        ),
{
    let point: u64 = match bet.point {
        Some(point) => point,
        None => match point_attestation {
            None => {
                return Err(JogoError::NoBetSignature);
            },
            Some(instruction) => {
                let attested = match deserialize_ed25519_instruction(instruction) {
                    Ok(attested) => attested,
                    Err(e) => {
                        return Err(e);
                    },
                };
                if let Err(e) = attested.verify_signer(operator) {
                    return Err(e);
                }
                match bet.unpack_point(bet_key, attested.msg) {
                    Ok(point) => point,
                    Err(e) => {
                        return Err(e);
                    },
                }
            },
        },
    };
    let winning: u64 = bet.settle(Some(point), crash_point);
    if !vault.check_settle(bet.stake, bet.reserve, winning) {
        return Err(JogoError::InsufficientLiquidity);
    }
    vault.settle(bet.stake, bet.reserve, winning);
    Ok(winning)
}

/// Closes a lock, which takes the record away.
///
/// Returns whether the lock may be closed: only one that is more than one
/// round older than the round open for bets.
pub fn close_crash_lock(game: &CrashGame, lock: CrashLock) -> (closed: bool)
    ensures
        closed == (lock.round + 1 < game.next_round),
{
    game.can_close_lock(&lock)
}

} // verus!
