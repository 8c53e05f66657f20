//! The liquidity pool: contributed capital, open stakes, reserved payouts and
//! the supply of claim shares.

use vstd::prelude::*;

use crate::error::JogoError;
use crate::math::fraction::widening_mul;
use crate::pubkey::Pubkey;

verus! {

/// A liquidity pool.
///
/// `liquidity` is the capital that is free to pay out, `reserve` the capital
/// set aside for the largest payout of every open bet, `stake` the sum of the
/// stakes of the open bets, and `minted_lp` the number of claim shares in
/// circulation.
#[derive(Clone, Copy, Debug)]
pub struct Vault {
    pub admin: Pubkey,
    pub lp_token_mint: Pubkey,
    pub supply_chip_account: Pubkey,
    pub liquidity: u64,
    pub stake: u64,
    pub reserve: u64,
    pub minted_lp: u64,
}

/// A movement of capital by a shareholder.
pub enum VaultOp {
    /// A deposit of `amount` capital.
    Deposit { amount: u64 },
    /// A withdrawal that burns `amount` shares.
    Withdraw { amount: u64 },
}

/// `floor(a * b / c)` over the natural numbers.
pub open spec fn mul_div(a: nat, b: nat, c: nat) -> nat {
    a * b / c
}

impl Vault {
    /// The capital that belongs to the shareholders: what the pool holds,
    /// less the stakes of the open bets.
    pub open spec fn backing_value(&self) -> int {
        self.liquidity + self.reserve - self.stake
    }

    /// What the pool holds fits in 64 bits and covers the open stakes.
    pub open spec fn wf(&self) -> bool {
        self.stake <= self.liquidity + self.reserve <= u64::MAX
    }

    /// The pool refers to the same administrator, share mint and holding
    /// account as `other`.
    pub open spec fn same_references(&self, other: &Vault) -> bool {
        &&& self.admin == other.admin
        &&& self.lp_token_mint == other.lp_token_mint
        &&& self.supply_chip_account == other.supply_chip_account
    }

    /// The shares minted for a deposit of `amount`: pro rata to the backing
    /// value, and one share per unit while nothing backs the pool.
    pub open spec fn shares_for(&self, amount: u64) -> nat {
        if self.backing_value() > 0 {
            mul_div(self.minted_lp as nat, amount as nat, self.backing_value() as nat)
        } else {
            amount as nat
        }
    }

    /// The capital paid out for burning `amount` shares.
    pub open spec fn payout_for(&self, amount: u64) -> nat
        recommends
            self.minted_lp > 0,
    {
        mul_div(self.backing_value() as nat, amount as nat, self.minted_lp as nat)
    }

    /// Whether a deposit of `amount` can be booked: it is not zero, and
    /// neither the capital held nor the share supply leaves 64 bits.
    pub open spec fn deposit_accepted(&self, amount: u64) -> bool {
        &&& amount > 0
        &&& self.liquidity + self.reserve + amount <= u64::MAX
        &&& self.minted_lp + self.shares_for(amount) <= u64::MAX
    }

    /// The share price of `self` is at most that of `later`, compared by
    /// cross-multiplication: `backing / shares <= later.backing / later.shares`.
    pub open spec fn price_at_most(&self, later: &Vault) -> bool {
        self.backing_value() * later.minted_lp <= later.backing_value() * self.minted_lp
    }

    /// The pool after the movement `op`: as `deposit` and `withdraw` leave
    /// it, and unchanged where they refuse the movement.
    pub open spec fn after(self, op: VaultOp) -> Vault {
        match op {
            VaultOp::Deposit { amount } => if self.deposit_accepted(amount) {
                Vault {
                    liquidity: (self.liquidity + amount) as u64,
                    minted_lp: (self.minted_lp + self.shares_for(amount)) as u64,
                    ..self
                }
            } else {
                self
            },
            VaultOp::Withdraw { amount } => if self.withdraw_accepted(amount) {
                Vault {
                    liquidity: (self.liquidity - self.payout_for(amount)) as u64,
                    minted_lp: (self.minted_lp - amount) as u64,
                    ..self
                }
            } else {
                self
            },
        }
    }

    /// The pool after the movements `ops`, one after the other.
    pub open spec fn after_all(self, ops: Seq<VaultOp>) -> Vault
        decreases ops.len(),
    {
        if ops.len() == 0 {
            self
        } else {
            self.after_all(ops.drop_last()).after(ops.last())
        }
    }

    /// An empty pool.
    pub fn new(admin: Pubkey, lp_token_mint: Pubkey, supply_chip_account: Pubkey) -> (out: Vault)
        ensures
            out.admin == admin,
            out.lp_token_mint == lp_token_mint,
            out.supply_chip_account == supply_chip_account,
            out.liquidity == 0,
            out.stake == 0,
            out.reserve == 0,
            out.minted_lp == 0,
            out.wf(),
    {
        Vault {
            admin,
            lp_token_mint,
            supply_chip_account,
            liquidity: 0,
            stake: 0,
            reserve: 0,
            minted_lp: 0,
        }
    }

    /// The backing value of the pool.
    pub fn supply(&self) -> (out: u64)
        requires
            self.wf(),
        ensures
            out == self.backing_value(),
    {
        self.liquidity + self.reserve - self.stake
    }

    /// Whether the amounts of the pool are consistent: what it holds fits in
    /// 64 bits and covers the open stakes.
    pub fn is_wf(&self) -> (ok: bool)
        ensures
            ok == self.wf(),
    {
        match self.liquidity.checked_add(self.reserve) {
            Some(held) => self.stake <= held,
            None => false,
        }
    }

    /// Books a deposit of `amount` and returns the number of shares to mint
    /// for it.
    ///
    /// Fails with `InvalidDepositAmount`, leaving the pool as it was, exactly
    /// when the amount is zero or the pool cannot represent the result. A
    /// deposit never lowers the share price.
    pub fn deposit(&mut self, amount: u64) -> (out: Result<u64, JogoError>)
        requires
            old(self).wf(),
        ensures
            final(self).wf(),
            final(self).same_references(old(self)),
            final(self).stake == old(self).stake,
            final(self).reserve == old(self).reserve,
            out is Ok <==> old(self).deposit_accepted(amount),
            out matches Err(e) ==> e == JogoError::InvalidDepositAmount && *final(self) == *old(
                self,
            ),
            out matches Ok(minted) ==> {
                &&& minted == old(self).shares_for(amount)
                &&& final(self).liquidity == old(self).liquidity + amount
                &&& final(self).minted_lp == old(self).minted_lp + minted
                &&& old(self).price_at_most(final(self))
            },
            *final(self) == old(self).after(VaultOp::Deposit { amount }),
    {
        if amount == 0 {
            return Err(JogoError::InvalidDepositAmount);
        }
        let supply: u64 = self.supply();
        if amount > u64::MAX - self.liquidity || self.reserve > u64::MAX - self.liquidity - amount {
            return Err(JogoError::InvalidDepositAmount);
        }
        let wide: u128 = if supply > 0 {
            widening_mul(self.minted_lp, amount) / (supply as u128)
        } else {
            amount as u128
        };
        if wide > (u64::MAX - self.minted_lp) as u128 {
            return Err(JogoError::InvalidDepositAmount);
        }
        let mint_lp: u64 = wide as u64;
        proof {
            lemma_deposit_keeps_price(
                supply as nat,
                self.minted_lp as nat,
                amount as nat,
                mint_lp as nat,
            );
        }
        self.liquidity += amount;
        self.minted_lp += mint_lp;
        Ok(mint_lp)
    }

    /// Whether `amount` shares can be burned: the amount is not zero and not
    /// above the share supply, and the pool can pay their value out of its
    /// free capital.
    pub open spec fn withdraw_accepted(&self, amount: u64) -> bool {
        &&& 0 < amount <= self.minted_lp
        &&& self.payout_for(amount) <= self.liquidity
    }

    /// Burns `amount` shares and returns the capital to pay out for them.
    ///
    /// Fails, leaving the pool as it was, with `InvalidWithdrawAmount` when
    /// the amount is zero or no share exists, with `InsufficientLiquidity`
    /// when the value of the shares exceeds the free capital, and with
    /// `InvalidWithdrawAmount` when more shares are burned than exist. A
    /// withdrawal never lowers the share price: the payout is rounded down.
    pub fn withdraw(&mut self, amount: u64) -> (out: Result<u64, JogoError>)
        requires
            old(self).wf(),
        ensures
            final(self).wf(),
            final(self).same_references(old(self)),
            final(self).stake == old(self).stake,
            final(self).reserve == old(self).reserve,
            out is Ok <==> old(self).withdraw_accepted(amount),
            out is Err ==> *final(self) == *old(self),
            out matches Err(e) ==> e == (if amount > 0 && old(self).minted_lp > 0 && old(
                self,
            ).payout_for(amount) > old(self).liquidity {
                JogoError::InsufficientLiquidity
            } else {
                JogoError::InvalidWithdrawAmount
            }),
            out matches Ok(paid) ==> {
                &&& paid == old(self).payout_for(amount)
                &&& final(self).liquidity == old(self).liquidity - paid
                &&& final(self).minted_lp == old(self).minted_lp - amount
                &&& old(self).price_at_most(final(self))
            },
            *final(self) == old(self).after(VaultOp::Withdraw { amount }),
    {
        if amount == 0 || self.minted_lp == 0 {
            return Err(JogoError::InvalidWithdrawAmount);
        }
        let supply: u64 = self.supply();
        let wide: u128 = widening_mul(supply, amount) / (self.minted_lp as u128);
        if wide > self.liquidity as u128 {
            return Err(JogoError::InsufficientLiquidity);
        }
        if amount > self.minted_lp {
            return Err(JogoError::InvalidWithdrawAmount);
        }
        let withdrawal: u64 = wide as u64;
        proof {
            lemma_withdraw_keeps_price(
                supply as nat,
                self.minted_lp as nat,
                amount as nat,
                withdrawal as nat,
            );
        }
        self.liquidity -= withdrawal;
        self.minted_lp -= amount;
        Ok(withdrawal)
    }

    /// Whether a stake of `stake` can enter the pool without leaving 64 bits.
    pub open spec fn bet_representable(&self, stake: u64) -> bool {
        &&& self.stake + stake <= u64::MAX
        &&& self.liquidity + self.reserve + stake <= u64::MAX
    }

    /// Books a bet: the stake enters the pool, and `reserve` moves from the
    /// free capital to the reserved capital.
    ///
    /// Fails, leaving the pool as it was, with `InvalidStakeAmount` when the
    /// pool cannot represent the stake, and otherwise with
    /// `InsufficientLiquidity` exactly when `reserve` exceeds the free
    /// capital after the stake has entered.
    pub fn bet(&mut self, stake: u64, reserve: u64) -> (out: Result<(), JogoError>)
        requires
            old(self).wf(),
        ensures
            final(self).wf(),
            final(self).same_references(old(self)),
            final(self).minted_lp == old(self).minted_lp,
            out is Ok <==> old(self).bet_representable(stake) && reserve <= old(self).liquidity
                + stake,
            out is Err ==> *final(self) == *old(self),
            out matches Err(e) ==> e == (if old(self).bet_representable(stake) {
                JogoError::InsufficientLiquidity
            } else {
                JogoError::InvalidStakeAmount
            }),
            out is Ok ==> {
                &&& final(self).stake == old(self).stake + stake
                &&& final(self).liquidity == old(self).liquidity + stake - reserve
                &&& final(self).reserve == old(self).reserve + reserve
            },
    {
        if stake > u64::MAX - self.stake || stake > u64::MAX - self.liquidity || self.reserve
            > u64::MAX - self.liquidity - stake {
            return Err(JogoError::InvalidStakeAmount);
        }
        if reserve > self.liquidity + stake {
            return Err(JogoError::InsufficientLiquidity);
        }
        self.stake += stake;
        self.liquidity = self.liquidity + stake - reserve;
        self.reserve += reserve;
        Ok(())
    }

    /// Whether a settlement of a bet of `stake` and `reserve` that wins
    /// `winning` is defined: the bet is among those booked, it wins no more
    /// than was reserved for it, and the free capital stays within 64 bits.
    pub open spec fn settle_defined(&self, stake: u64, reserve: u64, winning: u64) -> bool {
        &&& stake <= self.stake
        &&& reserve <= self.reserve
        &&& winning <= reserve
        &&& self.liquidity + reserve - winning <= u64::MAX
    }

    /// Whether the pool can settle a bet of `stake` and `reserve` that wins
    /// `winning` and stay consistent: the bet is among those booked, it wins
    /// no more than was reserved for it, and what the pool holds afterwards
    /// still covers the open stakes.
    pub open spec fn can_settle(&self, stake: u64, reserve: u64, winning: u64) -> bool {
        &&& stake <= self.stake
        &&& reserve <= self.reserve
        &&& winning <= reserve
        &&& self.stake - stake <= self.liquidity + self.reserve - winning
    }

    /// Whether `can_settle` holds.
    pub fn check_settle(&self, stake: u64, reserve: u64, winning: u64) -> (ok: bool)
        requires
            self.wf(),
        ensures
            ok == self.can_settle(stake, reserve, winning),
            ok ==> self.settle_defined(stake, reserve, winning),
    {
        stake <= self.stake && reserve <= self.reserve && winning <= reserve && self.stake - stake
            <= self.liquidity + self.reserve - winning
    }

    /// Settles a bet: its stake leaves the open stakes, its reserve is
    /// released, and what it did not win returns to the free capital.
    ///
    /// The caller sees to it that the bet wins no more than was reserved for
    /// it. The pool stays consistent exactly when what it holds afterwards
    /// covers the stakes that stay open.
    pub fn settle(&mut self, stake: u64, reserve: u64, winning: u64)
        requires
            old(self).settle_defined(stake, reserve, winning),
        ensures
            final(self).same_references(old(self)),
            final(self).minted_lp == old(self).minted_lp,
            final(self).stake == old(self).stake - stake,
            final(self).reserve == old(self).reserve - reserve,
            final(self).liquidity == old(self).liquidity + reserve - winning,
            final(self).backing_value() == old(self).backing_value() + stake - winning,
            final(self).wf() <==> old(self).stake - stake <= old(self).liquidity + old(
                self,
            ).reserve - winning <= u64::MAX,
            old(self).wf() && old(self).can_settle(stake, reserve, winning) ==> final(self).wf(),
    {
        self.stake -= stake;
        self.liquidity += reserve - winning;
        self.reserve -= reserve;
    }

    /// Whether the result of a game played elsewhere can be booked: a win of
    /// `amount` is paid from the free capital without touching the open
    /// stakes, a loss of `amount` fits into the pool.
    pub open spec fn third_party_accepted(&self, win: bool, amount: u64) -> bool {
        if win {
            amount <= self.liquidity && amount <= self.backing_value()
        } else {
            self.liquidity + self.reserve + amount <= u64::MAX
        }
    }

    /// Books the result of a game played elsewhere: a win of `amount` leaves
    /// the free capital, a loss of `amount` enters it.
    ///
    /// Fails, leaving the pool as it was, with `InsufficientLiquidity` when
    /// the pool cannot pay a win, and with `InvalidDepositAmount` when it
    /// cannot represent a loss.
    pub fn settle_third_party(&mut self, win: bool, amount: u64) -> (out: Result<(), JogoError>)
        requires
            old(self).wf(),
        ensures
            final(self).wf(),
            final(self).same_references(old(self)),
            final(self).minted_lp == old(self).minted_lp,
            final(self).stake == old(self).stake,
            final(self).reserve == old(self).reserve,
            out is Ok <==> old(self).third_party_accepted(win, amount),
            out is Err ==> *final(self) == *old(self),
            out matches Err(e) ==> e == (if win {
                JogoError::InsufficientLiquidity
            } else {
                JogoError::InvalidDepositAmount
            }),
            out is Ok ==> final(self).liquidity == (if win {
                old(self).liquidity - amount
            } else {
                old(self).liquidity + amount
            }),
    {
        if win {
            if amount > self.liquidity || amount > self.supply() {
                return Err(JogoError::InsufficientLiquidity);
            }
            self.liquidity -= amount;
        } else {
            if amount > u64::MAX - self.liquidity || self.reserve > u64::MAX - self.liquidity
                - amount {
                return Err(JogoError::InvalidDepositAmount);
            }
            self.liquidity += amount;
        }
        Ok(())
    }
}

/// Minting `floor(shares * amount / backing)` shares for `amount` of capital
/// does not lower the share price; neither does minting `amount` shares
/// while nothing backs the pool.
pub proof fn lemma_deposit_keeps_price(backing: nat, shares: nat, amount: nat, minted: nat)
    requires
        minted == if backing > 0 {
            mul_div(shares, amount, backing)
        } else {
            amount
        },
    ensures
        backing * (shares + minted) <= (backing + amount) * shares,
{
    if backing > 0 {
        assert(backing * (shares * amount / backing) <= shares * amount) by (nonlinear_arith)
            requires
                backing > 0,
        ;
        assert(backing * (shares + minted) == backing * shares + backing * minted)
            by (nonlinear_arith);
        assert((backing + amount) * shares == backing * shares + shares * amount)
            by (nonlinear_arith);
    } else {
        assert(backing * (shares + minted) == 0) by (nonlinear_arith)
            requires
                backing == 0,
        ;
    }
}

/// Paying `floor(backing * burned / shares)` for `burned` shares does not
/// lower the share price.
pub proof fn lemma_withdraw_keeps_price(backing: nat, shares: nat, burned: nat, paid: nat)
    requires
        0 < shares,
        burned <= shares,
        paid == mul_div(backing, burned, shares),
    ensures
        paid <= backing,
        backing * (shares - burned) <= (backing - paid) * shares,
{
    assert(shares * (backing * burned / shares) <= backing * burned) by (nonlinear_arith)
        requires
            shares > 0,
    ;
    assert(backing * burned <= backing * shares) by (nonlinear_arith)
        requires
            burned <= shares,
    ;
    assert(paid <= backing) by (nonlinear_arith)
        requires
            shares * paid <= backing * shares,
            shares > 0,
    ;
    assert(backing * (shares - burned) == backing * shares - backing * burned)
        by (nonlinear_arith);
    assert((backing - paid) * shares == backing * shares - shares * paid) by (nonlinear_arith);
}

/// One movement keeps the amounts of the pool consistent and does not lower
/// the share price.
pub proof fn lemma_movement_keeps_price(vault: Vault, op: VaultOp)
    requires
        vault.wf(),
    ensures
        vault.after(op).wf(),
        vault.price_at_most(&vault.after(op)),
{
    match op {
        VaultOp::Deposit { amount } => {
            if vault.deposit_accepted(amount) {
                lemma_deposit_keeps_price(
                    vault.backing_value() as nat,
                    vault.minted_lp as nat,
                    amount as nat,
                    vault.shares_for(amount),
                );
            }
        },
        VaultOp::Withdraw { amount } => {
            if vault.withdraw_accepted(amount) {
                lemma_withdraw_keeps_price(
                    vault.backing_value() as nat,
                    vault.minted_lp as nat,
                    amount as nat,
                    vault.payout_for(amount),
                );
            }
        },
    }
}

/// The order of share prices is transitive across a pool that has shares:
/// where the price of `first` is at most that of `second`, and that of
/// `second` at most that of `third`, the price of `first` is at most that
/// of `third`.
pub proof fn lemma_price_order_transitive(first: Vault, second: Vault, third: Vault)
    requires
        first.wf(),
        second.wf(),
        third.wf(),
        second.minted_lp > 0,
        first.price_at_most(&second),
        second.price_at_most(&third),
    ensures
        first.price_at_most(&third),
{
    let (b0, m0) = (first.backing_value(), first.minted_lp as int);
    let (b1, m1) = (second.backing_value(), second.minted_lp as int);
    let (b2, m2) = (third.backing_value(), third.minted_lp as int);
    assert(b0 * m2 <= b2 * m0) by (nonlinear_arith)
        requires
            b0 * m1 <= b1 * m0,
            b1 * m2 <= b2 * m1,
            m1 > 0,
            0 <= b0,
            0 <= b1,
            0 <= b2,
            0 <= m0,
            0 <= m2,
    {
        assert((b0 * m1) * m2 <= (b1 * m0) * m2);
        assert((b1 * m2) * m0 <= (b2 * m1) * m0);
        assert((b0 * m1) * m2 == m1 * (b0 * m2));
        assert((b1 * m0) * m2 == (b1 * m2) * m0);
        assert((b2 * m1) * m0 == m1 * (b2 * m0));
    }
}

/// The share price never falls: across any sequence of deposits and
/// withdrawals, with no bet in between, the price at the end is at least the
/// price at the start, provided that shares existed in between. (A pool
/// whose shares have all been burned has no price; the next deposit starts
/// it anew at one.)
pub proof fn lemma_price_never_falls(vault: Vault, ops: Seq<VaultOp>)
    requires
        vault.wf(),
        forall|i: int| 0 < i < ops.len() ==> (#[trigger] vault.after_all(ops.take(i))).minted_lp > 0,
    ensures
        vault.after_all(ops).wf(),
        vault.price_at_most(&vault.after_all(ops)),
    decreases ops.len(),
{
    if ops.len() > 0 {
        let front = ops.drop_last();
        assert forall|i: int| 0 < i < front.len() implies (#[trigger] vault.after_all(
            front.take(i),
        )).minted_lp > 0 by {
            assert(front.take(i) =~= ops.take(i));
        }
        lemma_price_never_falls(vault, front);
        let before = vault.after_all(front);
        lemma_movement_keeps_price(before, ops.last());
        if front.len() > 0 {
            assert(ops.take(front.len() as int) =~= front);
            lemma_price_order_transitive(vault, before, before.after(ops.last()));
        }
    }
}

} // verus!
