//! The sports club: its liquidity, its stakes, what it has locked on each of
//! the three outcomes, its games and the credentials of its bets.

use vstd::prelude::*;

use crate::hedge::{hedged_exposure, hedged_locking, hedged_locking_wide, larger};
use crate::pubkey::Pubkey;
use crate::sports::error::SportsError;

verus! {

/// A club: who administers and owns it, the token it is run in, the stakes
/// of its open bets, its liquidity and what it has locked on each outcome.
#[derive(Clone, Copy, Debug)]
pub struct Club {
    pub initialized: bool,
    pub admin: Pubkey,
    pub owner: Pubkey,
    pub token_mint: Pubkey,
    pub identifier: [u8; 32],
    pub staking: u64,
    pub liquidity: u64,
    pub locking_0: u64,
    pub locking_1: u64,
    pub locking_2: u64,
}

/// A game of a club: the stakes of its open bets.
#[derive(Clone, Copy, Debug)]
pub struct Game {
    pub club: Pubkey,
    pub identifier: [u8; 32],
    pub staking: u64,
}

/// Where a credential stands in its life: open from the bet until it is
/// cancelled or settled, and never open again.
#[derive(Clone, Copy, Debug, PartialEq, Eq, Structural)]
pub enum CredentialState {
    Open,
    Cancelled,
    Settled,
}

/// The record of one bet: the club and the player, the outcome the player
/// bet on, the stake paid and the payout locked for it.
#[derive(Debug)]
pub struct Credential {
    pub club: Pubkey,
    pub player: Pubkey,
    pub identifier: [u8; 32],
    pub direction: u8,
    pub stake: u64,
    pub lock: u64,
    pub state: CredentialState,
}

/// One of the operations after which a club holds its hedged exposure.
pub enum ClubOp {
    Deposit { amount: u64 },
    Withdraw { amount: u64 },
    Bet { direction: u8, stake: u64, lock: u64 },
    Settle { win: bool, direction: u8, lock: u64 },
}

impl Club {
    /// What is locked on the three outcomes sums up to no more than 64 bits
    /// hold.
    pub open spec fn wf(&self) -> bool {
        self.locking_0 + self.locking_1 + self.locking_2 <= u64::MAX
    }

    /// The hedged exposure of the club.
    pub open spec fn exposure(&self) -> int {
        hedged_exposure(self.locking_0 as int, self.locking_1 as int, self.locking_2 as int)
    }

    /// The club holds at least its hedged exposure.
    pub open spec fn solvent(&self) -> bool {
        self.liquidity >= self.exposure()
    }

    /// What a withdrawal must leave in the club: the hedged exposure, and no
    /// less than the stakes of the open bets.
    pub open spec fn insurance(&self) -> int {
        larger(self.exposure(), self.staking as int)
    }

    /// Nothing is staked and nothing is locked.
    pub open spec fn idle(&self) -> bool {
        self.staking == 0 && self.locking_0 == 0 && self.locking_1 == 0 && self.locking_2 == 0
    }

    /// What is locked on the outcome `direction`.
    pub open spec fn locked(&self, direction: u8) -> u64
        recommends
            direction <= 2,
    {
        if direction == 0 {
            self.locking_0
        } else if direction == 1 {
            self.locking_1
        } else {
            self.locking_2
        }
    }

    /// The club with `amount` locked on the outcome `direction`.
    pub open spec fn with_locked(self, direction: u8, amount: u64) -> Club
        recommends
            direction <= 2,
    {
        if direction == 0 {
            Club { locking_0: amount, ..self }
        } else if direction == 1 {
            Club { locking_1: amount, ..self }
        } else {
            Club { locking_2: amount, ..self }
        }
    }

    /// The club after a deposit of `amount`: `InvalidDepositAmount` where
    /// the amount is zero or the liquidity would leave 64 bits.
    pub open spec fn after_deposit(self, amount: u64) -> Result<Club, SportsError> {
        if amount == 0 || self.liquidity + amount > u64::MAX {
            Err(SportsError::InvalidDepositAmount)
        } else {
            Ok(Club { liquidity: (self.liquidity + amount) as u64, ..self })
        }
    }

    /// The club after a withdrawal of `amount`: `InvalidWithdrawAmount` where
    /// the amount is zero, `InsufficientLiquidity` where the club would be
    /// left with less than its hedged exposure or than its open stakes.
    pub open spec fn after_withdraw(self, amount: u64) -> Result<Club, SportsError> {
        if amount == 0 {
            Err(SportsError::InvalidWithdrawAmount)
        } else if self.liquidity - amount < self.insurance() {
            Err(SportsError::InsufficientLiquidity)
        } else {
            Ok(Club { liquidity: (self.liquidity - amount) as u64, ..self })
        }
    }

    /// The club after a bet of `stake` that locks `lock` on the outcome
    /// `direction`: `InvalidDirection` where the outcome is none of the
    /// three, `InvalidLockAmount` and `InvalidStakeAmount` where the locked
    /// amounts, the stakes or the liquidity would leave 64 bits,
    /// `InsufficientLiquidity` where the club would hold less than its
    /// hedged exposure.
    pub open spec fn after_bet(self, direction: u8, stake: u64, lock: u64) -> Result<
        Club,
        SportsError,
    > {
        if direction > 2 {
            Err(SportsError::InvalidDirection)
        } else if self.locking_0 + self.locking_1 + self.locking_2 + lock > u64::MAX {
            Err(SportsError::InvalidLockAmount)
        } else if self.staking + stake > u64::MAX || self.liquidity + stake > u64::MAX {
            Err(SportsError::InvalidStakeAmount)
        } else {
            let next = Club {
                staking: (self.staking + stake) as u64,
                liquidity: (self.liquidity + stake) as u64,
                ..self.with_locked(direction, (self.locked(direction) + lock) as u64)
            };
            if next.solvent() {
                Ok(next)
            } else {
                Err(SportsError::InsufficientLiquidity)
            }
        }
    }

    /// The club after a bet of `stake` that locked `lock` on the outcome
    /// `direction` has been cancelled: lock and stake are taken back out.
    /// `InvalidDirection` where the outcome is none of the three,
    /// `InvalidLockAmount` where less is locked on it, `InvalidStakeAmount`
    /// where less is staked, `InsufficientLiquidity` where the club cannot
    /// return the stake.
    pub open spec fn after_close_bet(self, direction: u8, stake: u64, lock: u64) -> Result<
        Club,
        SportsError,
    > {
        if direction > 2 {
            Err(SportsError::InvalidDirection)
        } else if lock > self.locked(direction) {
            Err(SportsError::InvalidLockAmount)
        } else if stake > self.staking {
            Err(SportsError::InvalidStakeAmount)
        } else if stake > self.liquidity {
            Err(SportsError::InsufficientLiquidity)
        } else {
            Ok(
                Club {
                    staking: (self.staking - stake) as u64,
                    liquidity: (self.liquidity - stake) as u64,
                    ..self.with_locked(direction, (self.locked(direction) - lock) as u64)
                },
            )
        }
    }

    /// The club after a bet that locked `lock` on the outcome `direction`
    /// has been settled: the lock is released, and paid out if the bet won.
    /// `InvalidDirection` where the outcome is none of the three,
    /// `InvalidLockAmount` where less is locked on it, and
    /// `InsufficientLiquidity` where the club cannot pay the winner or would
    /// hold less than its hedged exposure afterwards.
    pub open spec fn after_settle(self, win: bool, direction: u8, lock: u64) -> Result<
        Club,
        SportsError,
    > {
        if direction > 2 {
            Err(SportsError::InvalidDirection)
        } else if lock > self.locked(direction) {
            Err(SportsError::InvalidLockAmount)
        } else if win && lock > self.liquidity {
            Err(SportsError::InsufficientLiquidity)
        } else {
            let next = Club {
                liquidity: if win {
                    (self.liquidity - lock) as u64
                } else {
                    self.liquidity
                },
                ..self.with_locked(direction, (self.locked(direction) - lock) as u64)
            };
            if next.solvent() {
                Ok(next)
            } else {
                Err(SportsError::InsufficientLiquidity)
            }
        }
    }

    /// The club after the operation `op`.
    pub open spec fn after(self, op: ClubOp) -> Result<Club, SportsError> {
        match op {
            ClubOp::Deposit { amount } => self.after_deposit(amount),
            ClubOp::Withdraw { amount } => self.after_withdraw(amount),
            ClubOp::Bet { direction, stake, lock } => self.after_bet(direction, stake, lock),
            ClubOp::Settle { win, direction, lock } => self.after_settle(win, direction, lock),
        }
    }

    /// The club after the operations `ops`, one after the other. An
    /// operation that fails leaves the club as it was.
    pub open spec fn after_all(self, ops: Seq<ClubOp>) -> Club
        decreases ops.len(),
    {
        if ops.len() == 0 {
            self
        } else {
            let before = self.after_all(ops.drop_last());
            match before.after(ops.last()) {
                Ok(next) => next,
                Err(_) => before,
            }
        }
    }

    /// An initialized club that holds nothing and has nothing locked.
    pub fn new(admin: Pubkey, owner: Pubkey, token_mint: Pubkey, identifier: [u8; 32]) -> (out:
        Club)
        ensures
            out == (Club {
                initialized: true,
                admin,
                owner,
                token_mint,
                identifier,
                staking: 0,
                liquidity: 0,
                locking_0: 0,
                locking_1: 0,
                locking_2: 0,
            }),
            out.wf(),
            out.solvent(),
            out.idle(),
    {
        Club {
            initialized: true,
            admin,
            owner,
            token_mint,
            identifier,
            staking: 0,
            liquidity: 0,
            locking_0: 0,
            locking_1: 0,
            locking_2: 0,
        }
    }

    /// Whether what is locked sums up to no more than 64 bits hold.
    pub fn is_wf(&self) -> (ok: bool)
        ensures
            ok == self.wf(),
    {
        self.locking_0 <= u64::MAX - self.locking_1 && self.locking_2 <= u64::MAX - self.locking_0
            - self.locking_1
    }

    /// Whether the club can be closed: nothing is staked and nothing locked.
    pub fn can_close(&self) -> (ok: bool)
        ensures
            ok == self.idle(),
    {
        self.staking == 0 && self.locking_0 == 0 && self.locking_1 == 0 && self.locking_2 == 0
    }

    /// The hedged exposure of the club.
    pub fn hedged_locking(&self) -> (out: u64)
        requires
            self.wf(),
        ensures
            out == self.exposure(),
    {
        hedged_locking(self.locking_0, self.locking_1, self.locking_2)
    }

    /// Adds `amount` to the liquidity. The club becomes `after_deposit`, and
    /// stays as it was where that is an error. A solvent club stays solvent.
    pub fn deposit(&mut self, amount: u64) -> (out: Result<(), SportsError>)
        ensures
            old(self).wf() ==> final(self).wf(),
            match old(self).after_deposit(amount) {
                Ok(next) => out is Ok && *final(self) == next,
                Err(e) => out == Err::<(), SportsError>(e) && *final(self) == *old(self),
            },
            old(self).solvent() ==> final(self).solvent(),
    {
        if amount == 0 || amount > u64::MAX - self.liquidity {
            return Err(SportsError::InvalidDepositAmount);
        }
        self.liquidity += amount;
        Ok(())
    }

    /// Takes `amount` out of the liquidity. The club becomes
    /// `after_withdraw`, and stays as it was where that is an error. After a
    /// withdrawal the club is solvent and holds at least its open stakes.
    pub fn withdraw(&mut self, amount: u64) -> (out: Result<(), SportsError>)
        requires
            old(self).wf(),
        ensures
            final(self).wf(),
            match old(self).after_withdraw(amount) {
                Ok(next) => out is Ok && *final(self) == next,
                Err(e) => out == Err::<(), SportsError>(e) && *final(self) == *old(self),
            },
            out is Ok ==> final(self).solvent() && final(self).liquidity >= final(self).staking,
            old(self).solvent() ==> final(self).solvent(),
    {
        if amount == 0 {
            return Err(SportsError::InvalidWithdrawAmount);
        }
        if amount > self.liquidity {
            return Err(SportsError::InsufficientLiquidity);
        }
        let hedged: u64 = self.hedged_locking();
        let insurance: u64 = if hedged >= self.staking {
            hedged
        } else {
            self.staking
        };
        if self.liquidity - amount < insurance {
            return Err(SportsError::InsufficientLiquidity);
        }
        self.liquidity -= amount;
        Ok(())
    }

    /// Takes the stakes of a game that is closed out of the open stakes.
    pub fn close_game(&mut self, game: &Game)
        requires
            game.staking <= old(self).staking,
        ensures
            *final(self) == (Club {
                staking: (old(self).staking - game.staking) as u64,
                ..*old(self)
            }),
    {
        self.staking -= game.staking;
    }

    /// Books a bet of `stake` that locks `lock` on the outcome `direction`.
    /// The club becomes `after_bet`, and stays as it was where that is an
    /// error. After a bet the club is solvent.
    pub fn bet(&mut self, direction: u8, stake: u64, lock: u64) -> (out: Result<(), SportsError>)
        ensures
            old(self).wf() ==> final(self).wf(),
            out is Ok ==> final(self).wf(),
            match old(self).after_bet(direction, stake, lock) {
                Ok(next) => out is Ok && *final(self) == next,
                Err(e) => out == Err::<(), SportsError>(e) && *final(self) == *old(self),
            },
            out is Ok ==> final(self).solvent(),
            old(self).solvent() ==> final(self).solvent(),
    {
        if direction > 2 {
            return Err(SportsError::InvalidDirection);
        }
        let locked: u128 = self.locking_0 as u128 + self.locking_1 as u128 + self.locking_2 as u128
            + lock as u128;
        if locked > u64::MAX as u128 {
            return Err(SportsError::InvalidLockAmount);
        }
        if stake > u64::MAX - self.staking || stake > u64::MAX - self.liquidity {
            return Err(SportsError::InvalidStakeAmount);
        }
        let mut next: Club = *self;
        if direction == 0 {
            next.locking_0 += lock;
        } else if direction == 1 {
            next.locking_1 += lock;
        } else {
            next.locking_2 += lock;
        }
        next.staking += stake;
        next.liquidity += stake;
        if next.liquidity < next.hedged_locking() {
            return Err(SportsError::InsufficientLiquidity);
        }
        *self = next;
        Ok(())
    }

    /// Cancels the bet of `credential`. The club becomes `after_close_bet`,
    /// and stays as it was where that is an error.
    pub fn close_bet(&mut self, credential: &Credential) -> (out: Result<(), SportsError>)
        ensures
            old(self).wf() ==> final(self).wf(),
            match old(self).after_close_bet(
                credential.direction,
                credential.stake,
                credential.lock,
            ) {
                Ok(next) => out is Ok && *final(self) == next,
                Err(e) => out == Err::<(), SportsError>(e) && *final(self) == *old(self),
            },
    {
        if credential.direction > 2 {
            return Err(SportsError::InvalidDirection);
        }
        if credential.lock > self.locked_on(credential.direction) {
            return Err(SportsError::InvalidLockAmount);
        }
        if credential.stake > self.staking {
            return Err(SportsError::InvalidStakeAmount);
        }
        if credential.stake > self.liquidity {
            return Err(SportsError::InsufficientLiquidity);
        }
        self.unlock(credential.direction, credential.lock);
        self.staking -= credential.stake;
        self.liquidity -= credential.stake;
        Ok(())
    }

    /// Settles the bet of `credential`. The club becomes `after_settle`, and
    /// stays as it was where that is an error. After a settlement the club
    /// is solvent.
    pub fn settle(&mut self, win: bool, credential: &Credential) -> (out: Result<(), SportsError>)
        ensures
            old(self).wf() ==> final(self).wf(),
            match old(self).after_settle(win, credential.direction, credential.lock) {
                Ok(next) => out is Ok && *final(self) == next,
                Err(e) => out == Err::<(), SportsError>(e) && *final(self) == *old(self),
            },
            out is Ok ==> final(self).solvent(),
            old(self).solvent() ==> final(self).solvent(),
    {
        if credential.direction > 2 {
            return Err(SportsError::InvalidDirection);
        }
        if credential.lock > self.locked_on(credential.direction) {
            return Err(SportsError::InvalidLockAmount);
        }
        if win && credential.lock > self.liquidity {
            return Err(SportsError::InsufficientLiquidity);
        }
        let mut next: Club = *self;
        next.unlock(credential.direction, credential.lock);
        if win {
            next.liquidity -= credential.lock;
        }
        if (next.liquidity as u128) < hedged_locking_wide(
            next.locking_0,
            next.locking_1,
            next.locking_2,
        ) {
            return Err(SportsError::InsufficientLiquidity);
        }
        *self = next;
        Ok(())
    }

    /// What is locked on the outcome `direction`.
    pub fn locked_on(&self, direction: u8) -> (out: u64)
        requires
            direction <= 2,
        ensures
            out == self.locked(direction),
    {
        if direction == 0 {
            self.locking_0
        } else if direction == 1 {
            self.locking_1
        } else {
            self.locking_2
        }
    }

    /// Releases `lock` of what is locked on the outcome `direction`.
    fn unlock(&mut self, direction: u8, lock: u64)
        requires
            direction <= 2,
            lock <= old(self).locked(direction),
        ensures
            *final(self) == old(self).with_locked(
                direction,
                (old(self).locked(direction) - lock) as u64,
            ),
    {
        if direction == 0 {
            self.locking_0 -= lock;
        } else if direction == 1 {
            self.locking_1 -= lock;
        } else {
            self.locking_2 -= lock;
        }
    }
}

/// No operation takes a club out of the values whose locked amounts fit in
/// 64 bits.
pub proof fn lemma_step_keeps_wf(club: Club, op: ClubOp)
    requires
        club.wf(),
    ensures
        club.after(op) matches Ok(next) ==> next.wf(),
{
}

/// Solvency of one step: a deposit, a withdrawal, a bet or a settlement that
/// succeeds on a solvent club leaves a solvent club.
pub proof fn lemma_step_keeps_solvent(club: Club, op: ClubOp)
    requires
        club.wf(),
        club.solvent(),
    ensures
        club.after(op) matches Ok(next) ==> next.solvent(),
{
}

/// A withdrawal, a bet or a settlement that the club can represent, and
/// that would leave it with less than its hedged exposure, is refused with
/// `InsufficientLiquidity`.
pub proof fn lemma_insolvent_step_refused(club: Club, op: ClubOp)
    requires
        club.wf(),
        match op {
            ClubOp::Withdraw { amount } => amount > 0 && club.liquidity - amount < club.exposure(),
            ClubOp::Bet { direction, stake, lock } => {
                &&& direction <= 2
                &&& club.locking_0 + club.locking_1 + club.locking_2 + lock <= u64::MAX
                &&& club.staking + stake <= u64::MAX
                &&& club.liquidity + stake <= u64::MAX
                &&& club.liquidity + stake < club.with_locked(
                    direction,
                    (club.locked(direction) + lock) as u64,
                ).exposure()
            },
            ClubOp::Settle { win, direction, lock } => {
                &&& direction <= 2
                &&& lock <= club.locked(direction)
                &&& club.liquidity - (if win {
                    lock
                } else {
                    0
                }) < club.with_locked(
                    direction,
                    (club.locked(direction) - lock) as u64,
                ).exposure()
            },
            ClubOp::Deposit { amount } => false,
        },
    ensures
        club.after(op) == Err::<Club, SportsError>(SportsError::InsufficientLiquidity),
{
}

/// Solvency of every run: starting from a solvent club, after any sequence
/// of deposits, withdrawals, bets and settlements, of which those that fail
/// change nothing, the club is solvent.
pub proof fn lemma_run_keeps_solvent(club: Club, ops: Seq<ClubOp>)
    requires
        club.wf(),
        club.solvent(),
    ensures
        club.after_all(ops).wf(),
        club.after_all(ops).solvent(),
    decreases ops.len(),
{
    if ops.len() > 0 {
        lemma_run_keeps_solvent(club, ops.drop_last());
        let before = club.after_all(ops.drop_last());
        lemma_step_keeps_wf(before, ops.last());
        lemma_step_keeps_solvent(before, ops.last());
    }
}

impl Game {
    /// A game of the club at `club` with no stakes yet.
    pub fn new(club: Pubkey, identifier: [u8; 32]) -> (out: Game)
        ensures
            out == (Game { club, identifier, staking: 0 }),
    {
        Game { club, identifier, staking: 0 }
    }

    /// Whether the game can be closed: always once it is over, and when it
    /// is cancelled only after all of its bets have been closed.
    pub fn can_close(&self, cancel: bool) -> (ok: bool)
        ensures
            ok == (cancel ==> self.staking == 0),
    {
        if cancel {
            self.staking == 0
        } else {
            true
        }
    }

    /// Adds the stake of a new bet.
    pub fn bet(&mut self, stake: u64)
        requires
            old(self).staking + stake <= u64::MAX,
        ensures
            *final(self) == (Game { staking: (old(self).staking + stake) as u64, ..*old(self) }),
    {
        self.staking += stake;
    }

    /// Takes out the stake of a bet that is closed.
    pub fn close_bet(&mut self, stake: u64)
        requires
            stake <= old(self).staking,
        ensures
            *final(self) == (Game { staking: (old(self).staking - stake) as u64, ..*old(self) }),
    {
        self.staking -= stake;
    }
}

} // verus!
