//! The club: a market with three outcomes, the liquidity behind it, and the
//! credentials of its open bets.

use vstd::prelude::*;

use crate::game::error::GameError;
use crate::hedge::{hedged_exposure, hedged_locking, hedged_locking_wide};
use crate::pubkey::Pubkey;

verus! {

/// A club: who administers and owns it, where its funds are held, and how
/// much it holds and has locked on each of the three outcomes.
#[derive(Clone, Copy, Debug)]
pub struct Club {
    pub admin: Pubkey,
    pub owner: Pubkey,
    pub supply_token_account: Pubkey,
    pub identifier: [u8; 32],
    pub liquidity: u64,
    pub locking_0: u64,
    pub locking_1: u64,
    pub locking_2: u64,
}

/// Where a credential stands in its life: open from the bet until it is
/// settled, and never open again.
#[derive(Clone, Copy, Debug, PartialEq, Eq, Structural)]
pub enum CredentialState {
    Open,
    Settled,
}

/// The record of one bet: the club and the player, the outcome the player
/// bet on, the stake paid and the payout locked for it.
#[derive(Debug)]
pub struct Credential {
    pub club: Pubkey,
    pub player: Pubkey,
    pub identifier: [u8; 32],
    pub direction: u8,
    pub stake: u64,
    pub lock: u64,
    pub state: CredentialState,
}

/// One of the operations after which a club holds its hedged exposure.
pub enum ClubOp {
    Deposit { amount: u64 },
    Withdraw { amount: u64 },
    Bet { direction: u8, stake: u64, lock: u64 },
    Settle { win: bool, direction: u8, lock: u64 },
}

impl Club {
    /// What is locked on the three outcomes sums up to no more than 64 bits
    /// hold.
    pub open spec fn wf(&self) -> bool {
        self.locking_0 + self.locking_1 + self.locking_2 <= u64::MAX
    }

    /// The hedged exposure of the club.
    pub open spec fn exposure(&self) -> int {
        hedged_exposure(self.locking_0 as int, self.locking_1 as int, self.locking_2 as int)
    }

    /// The club holds at least its hedged exposure.
    pub open spec fn solvent(&self) -> bool {
        self.liquidity >= self.exposure()
    }

    /// What is locked on the outcome `direction`.
    pub open spec fn locked(&self, direction: u8) -> u64
        recommends
            direction <= 2,
    {
        if direction == 0 {
            self.locking_0
        } else if direction == 1 {
            self.locking_1
        } else {
            self.locking_2
        }
    }

    /// The club with `amount` locked on the outcome `direction`.
    pub open spec fn with_locked(self, direction: u8, amount: u64) -> Club
        recommends
            direction <= 2,
    {
        if direction == 0 {
            Club { locking_0: amount, ..self }
        } else if direction == 1 {
            Club { locking_1: amount, ..self }
        } else {
            Club { locking_2: amount, ..self }
        }
    }

    /// The club after a deposit of `amount`: `InvalidDepositAmount` where
    /// the amount is zero or the liquidity would leave 64 bits.
    pub open spec fn after_deposit(self, amount: u64) -> Result<Club, GameError> {
        if amount == 0 || self.liquidity + amount > u64::MAX {
            Err(GameError::InvalidDepositAmount)
        } else {
            Ok(Club { liquidity: (self.liquidity + amount) as u64, ..self })
        }
    }

    /// The club after a withdrawal of `amount`: `InvalidWithdrawAmount` where
    /// the amount is zero, `InsufficientLiquidity` where the club would be
    /// left with less than its hedged exposure.
    pub open spec fn after_withdraw(self, amount: u64) -> Result<Club, GameError> {
        if amount == 0 {
            Err(GameError::InvalidWithdrawAmount)
        } else if self.liquidity < self.exposure() + amount {
            Err(GameError::InsufficientLiquidity)
        } else {
            Ok(Club { liquidity: (self.liquidity - amount) as u64, ..self })
        }
    }

    /// The club after a bet of `stake` that locks `lock` on the outcome
    /// `direction`: `InvalidDirection` where the outcome is none of the
    /// three, `InvalidLockAmount` and `InvalidStakeAmount` where the locked
    /// amounts or the liquidity would leave 64 bits, `InsufficientLiquidity`
    /// where the club would hold less than its hedged exposure.
    pub open spec fn after_bet(self, direction: u8, stake: u64, lock: u64) -> Result<
        Club,
        GameError,
    > {
        if direction > 2 {
            Err(GameError::InvalidDirection)
        } else if self.locking_0 + self.locking_1 + self.locking_2 + lock > u64::MAX {
            Err(GameError::InvalidLockAmount)
        } else if self.liquidity + stake > u64::MAX {
            Err(GameError::InvalidStakeAmount)
        } else {
            let next = Club {
                liquidity: (self.liquidity + stake) as u64,
                ..self.with_locked(direction, (self.locked(direction) + lock) as u64)
            };
            if next.solvent() {
                Ok(next)
            } else {
                Err(GameError::InsufficientLiquidity)
            }
        }
    }

    /// The club after a bet that locked `lock` on the outcome `direction`
    /// has been settled: the lock is released, and paid out if the bet won.
    /// `InvalidDirection` where the outcome is none of the three,
    /// `InvalidLockAmount` where less is locked on it, and
    /// `InsufficientLiquidity` where the club cannot pay the winner or would
    /// hold less than its hedged exposure afterwards.
    pub open spec fn after_settle(self, win: bool, direction: u8, lock: u64) -> Result<
        Club,
        GameError,
    > {
        if direction > 2 {
            Err(GameError::InvalidDirection)
        } else if lock > self.locked(direction) {
            Err(GameError::InvalidLockAmount)
        } else if win && lock > self.liquidity {
            Err(GameError::InsufficientLiquidity)
        } else {
            let next = Club {
                liquidity: if win {
                    (self.liquidity - lock) as u64
                } else {
                    self.liquidity
                },
                ..self.with_locked(direction, (self.locked(direction) - lock) as u64)
            };
            if next.solvent() {
                Ok(next)
            } else {
                Err(GameError::InsufficientLiquidity)
            }
        }
    }

    /// The club after the operation `op`.
    pub open spec fn after(self, op: ClubOp) -> Result<Club, GameError> {
        match op {
            ClubOp::Deposit { amount } => self.after_deposit(amount),
            ClubOp::Withdraw { amount } => self.after_withdraw(amount),
            ClubOp::Bet { direction, stake, lock } => self.after_bet(direction, stake, lock),
            ClubOp::Settle { win, direction, lock } => self.after_settle(win, direction, lock),
        }
    }

    /// The club after the operations `ops`, one after the other. An
    /// operation that fails leaves the club as it was.
    pub open spec fn after_all(self, ops: Seq<ClubOp>) -> Club
        decreases ops.len(),
    {
        if ops.len() == 0 {
            self
        } else {
            let before = self.after_all(ops.drop_last());
            match before.after(ops.last()) {
                Ok(next) => next,
                Err(_) => before,
            }
        }
    }

    /// A club that holds nothing and has nothing locked.
    pub fn new(
        admin: Pubkey,
        owner: Pubkey,
        supply_token_account: Pubkey,
        identifier: [u8; 32],
    ) -> (out: Club)
        ensures
            out == (Club {
                admin,
                owner,
                supply_token_account,
                identifier,
                liquidity: 0,
                locking_0: 0,
                locking_1: 0,
                locking_2: 0,
            }),
            out.wf(),
            out.solvent(),
    {
        Club {
            admin,
            owner,
            supply_token_account,
            identifier,
            liquidity: 0,
            locking_0: 0,
            locking_1: 0,
            locking_2: 0,
        }
    }

    /// Whether what is locked sums up to no more than 64 bits hold.
    pub fn is_wf(&self) -> (ok: bool)
        ensures
            ok == self.wf(),
    {
        self.locking_0 <= u64::MAX - self.locking_1 && self.locking_2 <= u64::MAX - self.locking_0
            - self.locking_1
    }

    /// The hedged exposure of the club.
    pub fn hedged_locking(&self) -> (out: u64)
        requires
            self.wf(),
        ensures
            out == self.exposure(),
    {
        hedged_locking(self.locking_0, self.locking_1, self.locking_2)
    }

    /// Adds `amount` to the liquidity. The club becomes `after_deposit`, and
    /// stays as it was where that is an error. A solvent club stays solvent.
    pub fn deposit(&mut self, amount: u64) -> (out: Result<(), GameError>)
        ensures
            old(self).wf() ==> final(self).wf(),
            match old(self).after_deposit(amount) {
                Ok(next) => out is Ok && *final(self) == next,
                Err(e) => out == Err::<(), GameError>(e) && *final(self) == *old(self),
            },
            old(self).solvent() ==> final(self).solvent(),
    {
        if amount == 0 || amount > u64::MAX - self.liquidity {
            return Err(GameError::InvalidDepositAmount);
        }
        self.liquidity += amount;
        Ok(())
    }

    /// Takes `amount` out of the liquidity. The club becomes
    /// `after_withdraw`, and stays as it was where that is an error. After a
    /// withdrawal the club is solvent.
    pub fn withdraw(&mut self, amount: u64) -> (out: Result<(), GameError>)
        requires
            old(self).wf(),
        ensures
            final(self).wf(),
            match old(self).after_withdraw(amount) {
                Ok(next) => out is Ok && *final(self) == next,
                Err(e) => out == Err::<(), GameError>(e) && *final(self) == *old(self),
            },
            out is Ok ==> final(self).solvent(),
            old(self).solvent() ==> final(self).solvent(),
    {
        if amount == 0 {
            return Err(GameError::InvalidWithdrawAmount);
        }
        if amount > self.liquidity || self.liquidity - amount < self.hedged_locking() {
            return Err(GameError::InsufficientLiquidity);
        }
        self.liquidity -= amount;
        Ok(())
    }

    /// Books a bet of `stake` that locks `lock` on the outcome `direction`.
    /// The club becomes `after_bet`, and stays as it was where that is an
    /// error. After a bet the club is solvent.
    pub fn bet(&mut self, direction: u8, stake: u64, lock: u64) -> (out: Result<(), GameError>)
        ensures
            old(self).wf() ==> final(self).wf(),
            out is Ok ==> final(self).wf(),
            match old(self).after_bet(direction, stake, lock) {
                Ok(next) => out is Ok && *final(self) == next,
                Err(e) => out == Err::<(), GameError>(e) && *final(self) == *old(self),
            },
            out is Ok ==> final(self).solvent(),
            old(self).solvent() ==> final(self).solvent(),
    {
        if direction > 2 {
            return Err(GameError::InvalidDirection);
        }
        let locked: u128 = self.locking_0 as u128 + self.locking_1 as u128 + self.locking_2 as u128
            + lock as u128;
        if locked > u64::MAX as u128 {
            return Err(GameError::InvalidLockAmount);
        }
        if stake > u64::MAX - self.liquidity {
            return Err(GameError::InvalidStakeAmount);
        }
        let mut next: Club = *self;
        if direction == 0 {
            next.locking_0 += lock;
        } else if direction == 1 {
            next.locking_1 += lock;
        } else {
            next.locking_2 += lock;
        }
        next.liquidity += stake;
        if next.liquidity < next.hedged_locking() {
            return Err(GameError::InsufficientLiquidity);
        }
        *self = next;
        Ok(())
    }

    /// Settles a bet that locked `lock` on the outcome `bet_direction`. The
    /// club becomes `after_settle`, and stays as it was where that is an
    /// error. After a settlement the club is solvent.
    pub fn settle(&mut self, win: bool, bet_direction: u8, lock: u64) -> (out: Result<
        (),
        GameError,
    >)
        ensures
            old(self).wf() ==> final(self).wf(),
            match old(self).after_settle(win, bet_direction, lock) {
                Ok(next) => out is Ok && *final(self) == next,
                Err(e) => out == Err::<(), GameError>(e) && *final(self) == *old(self),
            },
            out is Ok ==> final(self).solvent(),
            old(self).solvent() ==> final(self).solvent(),
    {
        if bet_direction > 2 {
            return Err(GameError::InvalidDirection);
        }
        let locked: u64 = if bet_direction == 0 {
            self.locking_0
        } else if bet_direction == 1 {
            self.locking_1
        } else {
            self.locking_2
        };
        if lock > locked {
            return Err(GameError::InvalidLockAmount);
        }
        if win && lock > self.liquidity {
            return Err(GameError::InsufficientLiquidity);
        }
        let mut next: Club = *self;
        if bet_direction == 0 {
            next.locking_0 -= lock;
        } else if bet_direction == 1 {
            next.locking_1 -= lock;
        } else {
            next.locking_2 -= lock;
        }
        if win {
            next.liquidity -= lock;
        }
        if (next.liquidity as u128) < hedged_locking_wide(
            next.locking_0,
            next.locking_1,
            next.locking_2,
        ) {
            return Err(GameError::InsufficientLiquidity);
        }
        *self = next;
        Ok(())
    }
}

/// No operation takes a club out of the values whose locked amounts fit in
/// 64 bits.
pub proof fn lemma_step_keeps_wf(club: Club, op: ClubOp)
    requires
        club.wf(),
    ensures
        club.after(op) matches Ok(next) ==> next.wf(),
{
}

/// Solvency of one step: a deposit, a withdrawal, a bet or a settlement that
/// succeeds on a solvent club leaves a solvent club.
pub proof fn lemma_step_keeps_solvent(club: Club, op: ClubOp)
    requires
        club.wf(),
        club.solvent(),
    ensures
        club.after(op) matches Ok(next) ==> next.solvent(),
{
}

/// A withdrawal, a bet or a settlement that the club can represent, and
/// that would leave it with less than its hedged exposure, is refused with
/// `InsufficientLiquidity`.
pub proof fn lemma_insolvent_step_refused(club: Club, op: ClubOp)
    requires
        club.wf(),
        match op {
            ClubOp::Deposit { amount } => false,
            ClubOp::Withdraw { amount } => amount > 0 && club.liquidity - amount < club.exposure(),
            ClubOp::Bet { direction, stake, lock } => {
                &&& direction <= 2
                &&& club.locking_0 + club.locking_1 + club.locking_2 + lock <= u64::MAX
                &&& club.liquidity + stake <= u64::MAX
                &&& club.liquidity + stake < club.with_locked(
                    direction,
                    (club.locked(direction) + lock) as u64,
                ).exposure()
            },
            ClubOp::Settle { win, direction, lock } => {
                &&& direction <= 2
                &&& lock <= club.locked(direction)
                &&& club.liquidity - (if win {
                    lock
                } else {
                    0
                }) < club.with_locked(
                    direction,
                    (club.locked(direction) - lock) as u64,
                ).exposure()
            },
        },
    ensures
        club.after(op) == Err::<Club, GameError>(GameError::InsufficientLiquidity),
{
}

/// Solvency of every run: starting from a solvent club, after any sequence
/// of deposits, withdrawals, bets and settlements, of which those that fail
/// change nothing, the club is solvent.
pub proof fn lemma_run_keeps_solvent(club: Club, ops: Seq<ClubOp>)
    requires
        club.wf(),
        club.solvent(),
    ensures
        club.after_all(ops).wf(),
        club.after_all(ops).solvent(),
    decreases ops.len(),
{
    if ops.len() > 0 {
        lemma_run_keeps_solvent(club, ops.drop_last());
        let before = club.after_all(ops.drop_last());
        lemma_step_keeps_wf(before, ops.last());
        lemma_step_keeps_solvent(before, ops.last());
    }
}

} // verus!
