//! The crash game: rounds committed to an outside random value, bets against
//! the next round, and the crash point against which cash-out points are
//! compared.

use orao_solana_vrf::state::Randomness;
use vstd::prelude::*;

use crate::error::JogoError;
use crate::math::bytes::{all_zero, read_u32_le, read_u64_le, u32_le, u64_le};
use crate::math::fraction::Fraction;
use crate::math::hash::{hash, hashv, sha256, sha256_of_parts};
use crate::pubkey::Pubkey;

verus! {

/// Cash-out points and crash points are multipliers in hundredths: a point of
/// 150 pays one and a half times the stake.
pub const POINT_PRECISION: u64 = 100;

/// `orao_solana_vrf::state::Randomness`, the request account of the randomness
/// oracle. Nothing is known of what a value holds.
#[verifier::external_type_specification]
#[verifier::external_body]
pub struct ExRandomness(Randomness);

/// Calls `Randomness::fulfilled` and copies the value out.
///
/// Trusted: the oracle reports a request as fulfilled only once its
/// sixty-four bytes are not all zero, so a value that is handed out holds a
/// byte that is not zero. Nothing is claimed of when a request is fulfilled.
#[verifier::external_body]
fn fulfilled(randomness: &Randomness) -> (out: Option<[u8; 64]>)
    ensures
        out matches Some(bytes) ==> !all_zero(bytes@),
{
    randomness.fulfilled().copied()
}

/// A crash game: the pool that backs it, the operator that attests its
/// rounds, the share of the stakes that players win back on average, the
/// largest multiplier a bet can win, the number of the round that is open
/// for bets, and the random value of the round locked last.
#[derive(Clone, Copy, Debug)]
pub struct CrashGame {
    pub vault: Pubkey,
    pub operator: Pubkey,
    pub win_rate: Fraction,
    pub max_odd: Fraction,
    pub next_round: u64,
    pub last_randomness: [u8; 64],
}

/// A round that was committed to its random value.
#[derive(Clone, Copy, Debug)]
pub struct CrashLock {
    pub bump: u8,
    pub round: u64,
    pub randomness: [u8; 64],
}

/// A bet against a round: the stake, the payout reserved for it in the pool,
/// and the cash-out point if the player committed to one when betting.
///
/// A bet is settled once: settling takes the record away.
#[derive(Debug)]
pub struct CrashBet {
    pub bump: u8,
    pub stake: u64,
    pub reserve: u64,
    pub point: Option<u64>,
}

/// Whether `rate` lies strictly between zero and one.
pub open spec fn valid_win_rate(rate: Fraction) -> bool {
    0 < rate.numer() < rate.denom()
}

/// Whether `odd` lies above one.
pub open spec fn valid_max_odd(odd: Fraction) -> bool {
    odd.denom() < odd.numer()
}

/// The crash point that a winning rate and the digest of a randomness
/// signature determine.
///
/// The first four bytes of the digest are read as a number `r`; the crash
/// point is `floor(win_rate * 2^32 / (r + 1) * 100)`, a multiplier in
/// hundredths. `FractionOverflow` where the numerator `numer * 2^32`, the
/// denominator `denom * (r + 1)` or the crash point itself leaves 64 bits.
pub open spec fn crash_point_of(win_rate: Fraction, digest: Seq<u8>) -> Result<u64, JogoError> {
    let r = u32_le(digest.subrange(0, 4));
    let numerator = win_rate.numer() * 0x1_0000_0000;
    let denominator = win_rate.denom() * (r + 1);
    if numerator > u64::MAX || denominator > u64::MAX {
        Err(JogoError::FractionOverflow)
    } else if numerator * POINT_PRECISION as nat / denominator > u64::MAX {
        Err(JogoError::FractionOverflow)
    } else {
        Ok((numerator * POINT_PRECISION as nat / denominator) as u64)
    }
}

/// What a bet wins: nothing if it has no cash-out point or its point lies
/// above the crash point, and else `floor(point / 100 * stake)`, but no more
/// than `reserve`.
pub open spec fn winning_of(stake: u64, reserve: u64, point: Option<u64>, crash_point: u64) -> nat {
    match point {
        Some(p) if p <= crash_point => {
            let gross = (p as nat) * (stake as nat) / (POINT_PRECISION as nat);
            if gross <= reserve {
                gross
            } else {
                reserve as nat
            }
        },
        _ => 0,
    }
}

/// The crash point is a function of the winning rate and of the randomness
/// signature alone: two games with the same winning rate assign the same
/// crash point to the same signature, whatever else differs between them.
pub proof fn lemma_crash_point_deterministic(
    first: CrashGame,
    second: CrashGame,
    first_sig: Seq<u8>,
    second_sig: Seq<u8>,
)
    requires
        first.win_rate == second.win_rate,
        first_sig == second_sig,
    ensures
        crash_point_of(first.win_rate, sha256(first_sig)) == crash_point_of(
            second.win_rate,
            sha256(second_sig),
        ),
{
}

/// With a winning rate below one the crash point itself always fits: it is
/// an error only where the numerator `numer * 2^32` or the denominator
/// `denom * (r + 1)` leaves 64 bits, and it is at most `100 * 2^32`.
pub proof fn lemma_crash_point_bounded(win_rate: Fraction, digest: Seq<u8>)
    requires
        valid_win_rate(win_rate),
        digest.len() >= 4,
    ensures
        crash_point_of(win_rate, digest) is Ok <==> win_rate.numer() * 0x1_0000_0000 <= u64::MAX
            && win_rate.denom() * (u32_le(digest.subrange(0, 4)) + 1) <= u64::MAX,
        crash_point_of(win_rate, digest) matches Ok(point) ==> point <= 100 * 0x1_0000_0000,
{
    let r = u32_le(digest.subrange(0, 4));
    let numerator = win_rate.numer() * 0x1_0000_0000;
    let denominator = win_rate.denom() * (r + 1);
    assert(0 <= numerator * 100 / denominator <= 100 * 0x1_0000_0000) by (nonlinear_arith)
        requires
            numerator == win_rate.numer() * 0x1_0000_0000,
            denominator == win_rate.denom() * (r + 1),
            0 < win_rate.numer() < win_rate.denom(),
            r >= 0,
    ;
}

impl CrashGame {
    /// The winning rate lies strictly between zero and one, and the largest
    /// odd above one.
    pub open spec fn wf(&self) -> bool {
        valid_win_rate(self.win_rate) && valid_max_odd(self.max_odd)
    }

    /// A game at round zero.
    ///
    /// Fails with `InvalidWinningRate` when the winning rate is zero, one or
    /// more, and else with `InvalidOdd` when the largest odd is one or less.
    pub fn new(vault: Pubkey, operator: Pubkey, win_rate: Fraction, max_odd: Fraction) -> (out:
        Result<CrashGame, JogoError>)
        ensures
            out is Ok <==> valid_win_rate(win_rate) && valid_max_odd(max_odd),
            out matches Err(e) ==> e == (if valid_win_rate(win_rate) {
                JogoError::InvalidOdd
            } else {
                JogoError::InvalidWinningRate
            }),
            out matches Ok(game) ==> {
                &&& game.vault == vault
                &&& game.operator == operator
                &&& game.win_rate == win_rate
                &&& game.max_odd == max_odd
                &&& game.next_round == 0
                &&& all_zero(game.last_randomness@)
                &&& game.wf()
            },
    {
        if win_rate >= Fraction::one() || win_rate == Fraction::zero() {
            return Err(JogoError::InvalidWinningRate);
        }
        if max_odd <= Fraction::one() {
            return Err(JogoError::InvalidOdd);
        }
        Ok(
            CrashGame {
                vault,
                operator,
                win_rate,
                max_odd,
                next_round: 0,
                last_randomness: [0u8; 64],
            },
        )
    }

    /// Replaces the operator.
    pub fn set_operator(&mut self, operator: Pubkey)
        ensures
            *final(self) == (CrashGame { operator, ..*old(self) }),
    {
        self.operator = operator;
    }

    /// Replaces the winning rate; `InvalidWinningRate`, and no change,
    /// exactly when the new rate is zero, one or more.
    pub fn set_win_rate(&mut self, win_rate: Fraction) -> (out: Result<(), JogoError>)
        ensures
            out is Ok <==> valid_win_rate(win_rate),
            out matches Err(e) ==> e == JogoError::InvalidWinningRate && *final(self) == *old(self),
            out is Ok ==> *final(self) == (CrashGame { win_rate, ..*old(self) }),
    {
        if win_rate > Fraction::zero() && win_rate < Fraction::one() {
            self.win_rate = win_rate;
            Ok(())
        } else {
            Err(JogoError::InvalidWinningRate)
        }
    }

    /// Replaces the largest odd; `InvalidOdd`, and no change, exactly when
    /// the new odd is one or less.
    pub fn set_max_odd(&mut self, max_odd: Fraction) -> (out: Result<(), JogoError>)
        ensures
            out is Ok <==> valid_max_odd(max_odd),
            out matches Err(e) ==> e == JogoError::InvalidOdd && *final(self) == *old(self),
            out is Ok ==> *final(self) == (CrashGame { max_odd, ..*old(self) }),
    {
        if max_odd > Fraction::one() {
            self.max_odd = max_odd;
            Ok(())
        } else {
            Err(JogoError::InvalidOdd)
        }
    }

    /// Locks the open round to the value that the oracle delivered for it.
    ///
    /// While the oracle has not fulfilled the request the game stays as it
    /// was and the call fails with `RandomnessNotFulfilled`. Once it has, the
    /// call has the effect of `lock_with` on the delivered value, which holds
    /// a byte that is not zero.
    pub fn lock(&mut self, bump: u8, randomness: &Randomness) -> (out: Result<
        CrashLock,
        JogoError,
    >)
        requires
            old(self).next_round < u64::MAX,
        ensures
            out matches Err(e) ==> e == JogoError::RandomnessNotFulfilled && *final(self) == *old(
                self,
            ),
            out matches Ok(lock) ==> {
                &&& !all_zero(lock.randomness@)
                &&& lock.bump == bump
                &&& lock.round == old(self).next_round
                &&& *final(self) == (CrashGame {
                    next_round: (old(self).next_round + 1) as u64,
                    last_randomness: lock.randomness,
                    ..*old(self)
                })
            },
    {
        let delivered = fulfilled(randomness);
        self.lock_with(bump, delivered)
    }

    /// Locks the open round to `delivered`, the oracle's answer.
    ///
    /// With no answer yet the game stays as it was and the call fails with
    /// `RandomnessNotFulfilled`. With an answer, the lock carries the number
    /// of the round that was open and the value delivered, the next round
    /// opens, and the value is remembered as the last randomness.
    pub fn lock_with(&mut self, bump: u8, delivered: Option<[u8; 64]>) -> (out: Result<
        CrashLock,
        JogoError,
    >)
        requires
            old(self).next_round < u64::MAX,
        ensures
            out is Ok <==> delivered is Some,
            out matches Err(e) ==> e == JogoError::RandomnessNotFulfilled && *final(self) == *old(
                self,
            ),
            out matches Ok(lock) ==> {
                &&& lock.bump == bump
                &&& lock.round == old(self).next_round
                &&& Some(lock.randomness) == delivered
                &&& *final(self) == (CrashGame {
                    next_round: (old(self).next_round + 1) as u64,
                    last_randomness: lock.randomness,
                    ..*old(self)
                })
            },
    {
        match delivered {
            Some(randomness) => {
                let lock = CrashLock { bump, round: self.next_round, randomness };
                self.next_round += 1;
                self.last_randomness = randomness;
                Ok(lock)
            },
            None => Err(JogoError::RandomnessNotFulfilled),
        }
    }

    /// Whether a lock is stale: more than one round older than the round
    /// that is open for bets. Only a stale lock may be closed.
    pub fn can_close_lock(&self, lock: &CrashLock) -> (stale: bool)
        ensures
            stale == (lock.round + 1 < self.next_round),
    {
        lock.round < u64::MAX && lock.round + 1 < self.next_round
    }

    /// The bet that `stake` buys: its reserve is `floor(max_odd * stake)`.
    ///
    /// Fails with `InvalidStakeAmount` exactly when the stake is zero or the
    /// reserve leaves 64 bits.
    pub fn bet(&self, bump: u8, stake: u64, point: Option<u64>) -> (out: Result<
        CrashBet,
        JogoError,
    >)
        ensures
            out is Ok <==> stake > 0 && self.max_odd.mul_floor(stake as nat) <= u64::MAX,
            out matches Err(e) ==> e == JogoError::InvalidStakeAmount,
            out matches Ok(bet) ==> {
                &&& bet.bump == bump
                &&& bet.stake == stake
                &&& bet.reserve == self.max_odd.mul_floor(stake as nat)
                &&& bet.point == point
            },
    {
        if stake == 0 {
            return Err(JogoError::InvalidStakeAmount);
        }
        match self.max_odd.checked_mul_u64(stake) {
            Some(reserve) => Ok(CrashBet { bump, stake, reserve, point }),
            None => Err(JogoError::InvalidStakeAmount),
        }
    }

    /// The seed that the oracle is asked with for the round of `lock`: the
    /// digest of the lock's address followed by the last randomness.
    pub fn seed(&self, lock: &Pubkey) -> (out: [u8; 32])
        ensures
            out@ == sha256_of_parts(seq![lock@, self.last_randomness@]),
    {
        let address: [u8; 32] = lock.to_bytes();
        hashv(address.as_slice(), self.last_randomness.as_slice())
    }

    /// The crash point of the round whose randomness was signed with
    /// `randomness_sig`: that of the signature's digest.
    pub fn crash_point(&self, randomness_sig: &[u8]) -> (out: Result<u64, JogoError>)
        ensures
            out == crash_point_of(self.win_rate, sha256(randomness_sig@)),
    {
        let sig_hash: [u8; 32] = hash(randomness_sig);
        self.crash_point_from_digest(&sig_hash)
    }

    /// The crash point that the digest of a randomness signature determines.
    /// With a winning rate below one it is at most `100 * 2^32`.
    pub fn crash_point_from_digest(&self, digest: &[u8; 32]) -> (out: Result<u64, JogoError>)
        ensures
            out == crash_point_of(self.win_rate, digest@),
            valid_win_rate(self.win_rate) ==> (out matches Ok(point) ==> point <= 100
                * 0x1_0000_0000),
    {
        proof {
            if valid_win_rate(self.win_rate) {
                lemma_crash_point_bounded(self.win_rate, digest@);
            }
        }
        let final_rand: u32 = read_u32_le(digest.as_slice(), 0);
        let scale = match Fraction::new(0x1_0000_0000, final_rand as u64 + 1) {
            Ok(scale) => scale,
            Err(e) => {
                return Err(e);
            },
        };
        let product = match self.win_rate.try_mul(scale) {
            Ok(product) => product,
            Err(e) => {
                return Err(e);
            },
        };
        match product.checked_mul_u64(POINT_PRECISION) {
            Some(point) => Ok(point),
            None => Err(JogoError::FractionOverflow),
        }
    }
}

impl CrashBet {
    /// The cash-out point that a signed message carries for the bet at
    /// address `bet`: bytes 0 to 31 name the bet, bytes 32 to 39 hold the
    /// point, least significant byte first.
    pub open spec fn message_point(bet: Pubkey, msg: Seq<u8>) -> Option<u64> {
        if msg.len() == 40 && msg.subrange(0, 32) == bet@ {
            Some(u64_le(msg.subrange(32, 40)) as u64)
        } else {
            None
        }
    }

    /// The cash-out point of the bet: the one it was placed with, or else the
    /// one that `msg` carries for the bet at address `bet`.
    ///
    /// Fails with `InvalidBetMessage` exactly when the bet was placed without
    /// a point and the message has another length than 40 or names another
    /// bet.
    pub fn unpack_point(&self, bet: &Pubkey, msg: &[u8]) -> (out: Result<u64, JogoError>)
        ensures
            out == (match self.point {
                Some(point) => Ok::<u64, JogoError>(point),
                None => match Self::message_point(*bet, msg@) {
                    Some(point) => Ok(point),
                    None => Err(JogoError::InvalidBetMessage),
                },
            }),
    {
        if let Some(point) = self.point {
            Ok(point)
        } else {
            if msg.len() != 40 {
                return Err(JogoError::InvalidBetMessage);
            }
            let msg_bet = Pubkey::read(msg, 0);
            if msg_bet != *bet {
                return Err(JogoError::InvalidBetMessage);
            }
            Ok(read_u64_le(msg, 32))
        }
    }

    /// The cash-out point that a settlement goes by: the point the bet was
    /// placed with, or else `point`, the one that comes with the settlement.
    pub open spec fn cash_out_point(&self, point: Option<u64>) -> Option<u64> {
        if self.point is Some {
            self.point
        } else {
            point
        }
    }

    /// What the bet wins at `crash_point`. Its cash-out point is the one it
    /// was placed with; only a bet placed without one goes by `point`.
    pub fn settle(&self, point: Option<u64>, crash_point: u64) -> (out: u64)
        ensures
            out == winning_of(self.stake, self.reserve, self.cash_out_point(point), crash_point),
            out <= self.reserve,
    {
        let chosen: Option<u64> = if self.point.is_some() {
            self.point
        } else {
            point
        };
        if let Some(point) = chosen {
            if point <= crash_point {
                return match Fraction::new(point, POINT_PRECISION) {
                    Ok(multiplier) => multiplier.mul_u64_capped(self.stake, self.reserve),
                    Err(_) => 0,
                };
            }
        }
        0
    }
}

} // verus!
