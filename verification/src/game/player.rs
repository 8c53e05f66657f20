//! The rounds of a player: a bet opens a round, a settlement closes it.

use vstd::prelude::*;

use crate::game::error::GameError;
use crate::pubkey::Pubkey;

verus! {

/// What is kept per player: the round of the next bet, the round of the
/// next settlement, and the amounts of the bet that is open.
#[derive(Clone, Copy, Debug)]
pub struct PlayerState {
    pub game: Pubkey,
    pub owner: Pubkey,
    pub bet_round: u64,
    pub settle_round: u64,
    pub stake: u64,
    pub lock: u64,
    pub reward: u64,
}

impl PlayerState {
    /// The bet round is one ahead of the settle round.
    pub open spec fn round_open(&self) -> bool {
        self.bet_round == self.settle_round + 1
    }

    /// Accepts the state if the bet round is one ahead of the settle round,
    /// and fails with `InvalidRound` if it is not.
    pub fn check_round(&self) -> (out: Result<(), GameError>)
        ensures
            out is Ok <==> self.round_open(),
            out matches Err(e) ==> e == GameError::InvalidRound,
    {
        if self.settle_round < u64::MAX && self.bet_round == self.settle_round + 1 {
            Ok(())
        } else {
            Err(GameError::InvalidRound)
        }
    }

    /// Why a bet of `stake` with `reward` in round `round` is refused, if it
    /// is: the first that applies of `InvalidRound`, `MismatchedBetRound`,
    /// `InvalidStakeAmount` for a stake of zero, and `InvalidRewardAmount`
    /// for a reward that does not exceed the stake.
    pub open spec fn bet_error(&self, round: u64, stake: u64, reward: u64) -> Option<GameError> {
        if !self.round_open() {
            Some(GameError::InvalidRound)
        } else if round != self.bet_round {
            Some(GameError::MismatchedBetRound)
        } else if stake == 0 {
            Some(GameError::InvalidStakeAmount)
        } else if reward <= stake {
            Some(GameError::InvalidRewardAmount)
        } else {
            None
        }
    }

    /// Records a bet in round `round` and moves on to the next bet round.
    /// On an error the state stays as it was.
    pub fn bet(&mut self, round: u64, stake: u64, lock: u64, reward: u64) -> (out: Result<
        (),
        GameError,
    >)
        requires
            old(self).bet_round < u64::MAX,
        ensures
            match old(self).bet_error(round, stake, reward) {
                Some(e) => out == Err::<(), GameError>(e) && *final(self) == *old(self),
                None => out is Ok && *final(self) == (PlayerState {
                    bet_round: (old(self).bet_round + 1) as u64,
                    stake,
                    lock,
                    reward,
                    ..*old(self)
                }),
            },
    {
        if let Err(e) = self.check_round() {
            return Err(e);
        }
        if round != self.bet_round {
            return Err(GameError::MismatchedBetRound);
        }
        if stake == 0 {
            return Err(GameError::InvalidStakeAmount);
        }
        if reward <= stake {
            return Err(GameError::InvalidRewardAmount);
        }
        self.bet_round += 1;
        self.stake = stake;
        self.lock = lock;
        self.reward = reward;
        Ok(())
    }

    /// Closes the round `round`: the amounts of the bet are cleared and the
    /// settle round moves on. `InvalidRound` where the bet round is not one
    /// ahead, `MismatchedSettleRound` where `round` is not the settle round;
    /// on an error the state stays as it was.
    pub fn settle(&mut self, round: u64) -> (out: Result<(), GameError>)
        ensures
            out is Ok <==> old(self).round_open() && round == old(self).settle_round,
            out matches Err(e) ==> *final(self) == *old(self) && e == (if old(self).round_open() {
                GameError::MismatchedSettleRound
            } else {
                GameError::InvalidRound
            }),
            out is Ok ==> *final(self) == (PlayerState {
                settle_round: (old(self).settle_round + 1) as u64,
                stake: 0,
                lock: 0,
                reward: 0,
                ..*old(self)
            }),
    {
        if let Err(e) = self.check_round() {
            return Err(e);
        }
        if round != self.settle_round {
            return Err(GameError::MismatchedSettleRound);
        }
        self.settle_round += 1;
        self.stake = 0;
        self.lock = 0;
        self.reward = 0;
        Ok(())
    }
}

} // verus!
