use jogo::error::JogoError;
use jogo::pubkey::Pubkey;
use jogo::state::Vault;

fn key(byte: u8) -> Pubkey {
    Pubkey::new_from_array([byte; 32])
}

fn empty_vault() -> Vault {
    Vault::new(key(1), key(2), key(3))
}

fn vault_with(liquidity: u64, stake: u64, reserve: u64, minted_lp: u64) -> Vault {
    let mut vault = empty_vault();
    vault.liquidity = liquidity;
    vault.stake = stake;
    vault.reserve = reserve;
    vault.minted_lp = minted_lp;
    assert!(vault.is_wf());
    vault
}

#[test]
fn first_deposit_mints_one_to_one_and_half_the_shares_pay_half() {
    let mut vault = empty_vault();
    assert_eq!(vault.deposit(1000), Ok(1000));
    assert_eq!(vault.minted_lp, 1000);
    assert_eq!(vault.supply(), 1000);
    assert_eq!(vault.withdraw(500), Ok(500));
    assert_eq!(vault.minted_lp, 500);
    assert_eq!(vault.liquidity, 500);
    assert_eq!(vault.supply(), 500);
}

#[test]
fn new_vault_is_empty() {
    let vault = empty_vault();
    assert_eq!(vault.admin.to_bytes(), [1; 32]);
    assert_eq!(vault.lp_token_mint.to_bytes(), [2; 32]);
    assert_eq!(vault.supply_chip_account.to_bytes(), [3; 32]);
    assert_eq!((vault.liquidity, vault.stake, vault.reserve, vault.minted_lp), (0, 0, 0, 0));
    assert!(vault.is_wf());
}

#[test]
fn is_wf_detects_uncovered_stakes_and_overflow() {
    let mut vault = empty_vault();
    vault.stake = 1;
    assert!(!vault.is_wf());
    vault.liquidity = u64::MAX;
    vault.reserve = 1;
    assert!(!vault.is_wf());
    vault.reserve = 0;
    assert!(vault.is_wf());
}

#[test]
fn deposit_of_zero_is_rejected() {
    let mut vault = vault_with(10, 0, 0, 10);
    assert_eq!(vault.deposit(0), Err(JogoError::InvalidDepositAmount));
    assert_eq!((vault.liquidity, vault.minted_lp), (10, 10));
}

#[test]
fn deposit_mints_pro_rata_rounded_down() {
    // backing 300, 100 shares: 10 units buy floor(100 * 10 / 300) = 3 shares
    let mut vault = vault_with(300, 0, 0, 100);
    assert_eq!(vault.deposit(10), Ok(3));
    assert_eq!(vault.liquidity, 310);
    assert_eq!(vault.minted_lp, 103);
}

#[test]
fn deposit_counts_reserve_and_stake_in_the_backing() {
    // backing = 50 + 80 - 30 = 100
    let mut vault = vault_with(50, 30, 80, 1000);
    assert_eq!(vault.supply(), 100);
    assert_eq!(vault.deposit(7), Ok(70));
    assert_eq!((vault.liquidity, vault.stake, vault.reserve, vault.minted_lp), (57, 30, 80, 1070));
}

#[test]
fn deposit_into_unbacked_pool_mints_one_to_one() {
    let mut vault = vault_with(40, 40, 0, 9);
    assert_eq!(vault.supply(), 0);
    assert_eq!(vault.deposit(25), Ok(25));
    assert_eq!(vault.minted_lp, 34);
}

#[test]
fn deposit_that_overflows_is_rejected() {
    let mut vault = vault_with(u64::MAX - 5, 0, 0, 1);
    assert_eq!(vault.deposit(6), Err(JogoError::InvalidDepositAmount));
    assert_eq!(vault.liquidity, u64::MAX - 5);
    let mut shares = vault_with(1, 0, 0, u64::MAX);
    assert_eq!(shares.deposit(1), Err(JogoError::InvalidDepositAmount));
    assert_eq!(shares.minted_lp, u64::MAX);
}

#[test]
fn withdraw_of_zero_is_rejected() {
    let mut vault = vault_with(10, 0, 0, 10);
    assert_eq!(vault.withdraw(0), Err(JogoError::InvalidWithdrawAmount));
}

#[test]
fn withdraw_without_shares_is_rejected() {
    let mut vault = vault_with(10, 0, 0, 0);
    assert_eq!(vault.withdraw(1), Err(JogoError::InvalidWithdrawAmount));
    assert_eq!(vault.liquidity, 10);
}

#[test]
fn withdraw_of_more_shares_than_exist_is_rejected() {
    let mut vault = vault_with(0, 0, 0, 10);
    assert_eq!(vault.withdraw(11), Err(JogoError::InvalidWithdrawAmount));
    assert_eq!(vault.minted_lp, 10);
}

#[test]
fn withdraw_pays_pro_rata_rounded_down() {
    // backing 1000, 300 shares: 100 shares are worth floor(1000 * 100 / 300) = 333
    let mut vault = vault_with(1000, 0, 0, 300);
    assert_eq!(vault.withdraw(100), Ok(333));
    assert_eq!(vault.liquidity, 667);
    assert_eq!(vault.minted_lp, 200);
}

#[test]
fn withdraw_beyond_free_capital_is_rejected() {
    // backing = 10 + 90 - 0 = 100, but only 10 are free
    let mut vault = vault_with(10, 0, 90, 100);
    assert_eq!(vault.withdraw(11), Err(JogoError::InsufficientLiquidity));
    assert_eq!((vault.liquidity, vault.minted_lp), (10, 100));
    assert_eq!(vault.withdraw(10), Ok(10));
}

#[test]
fn share_price_never_falls_over_deposits_and_withdrawals() {
    let mut vault = vault_with(1000, 0, 0, 300);
    let moves: [(bool, u64); 8] = [
        (true, 7),
        (false, 13),
        (true, 1),
        (false, 1),
        (true, 999_999),
        (false, 250),
        (true, 3),
        (false, 29),
    ];
    for (is_deposit, amount) in moves {
        let backing_before: u128 = vault.supply() as u128;
        let shares_before: u128 = vault.minted_lp as u128;
        if is_deposit {
            vault.deposit(amount).unwrap();
        } else {
            vault.withdraw(amount).unwrap();
        }
        let backing_after: u128 = vault.supply() as u128;
        let shares_after: u128 = vault.minted_lp as u128;
        assert!(backing_before * shares_after <= backing_after * shares_before);
        assert!(vault.is_wf());
    }
}

#[test]
fn bet_moves_reserve_out_of_the_free_capital() {
    let mut vault = vault_with(1000, 0, 0, 1000);
    assert_eq!(vault.bet(100, 300), Ok(()));
    assert_eq!((vault.liquidity, vault.stake, vault.reserve, vault.minted_lp), (800, 100, 300, 1000));
    assert_eq!(vault.supply(), 1000);
}

#[test]
fn bet_beyond_free_capital_is_rejected() {
    let mut vault = vault_with(100, 0, 0, 100);
    assert_eq!(vault.bet(50, 151), Err(JogoError::InsufficientLiquidity));
    assert_eq!((vault.liquidity, vault.stake, vault.reserve), (100, 0, 0));
    assert_eq!(vault.bet(50, 150), Ok(()));
    assert_eq!((vault.liquidity, vault.stake, vault.reserve), (0, 50, 150));
}

#[test]
fn bet_that_overflows_is_rejected() {
    let mut vault = vault_with(u64::MAX - 1, 0, 0, 1);
    assert_eq!(vault.bet(2, 0), Err(JogoError::InvalidStakeAmount));
    assert_eq!(vault.liquidity, u64::MAX - 1);
}

#[test]
fn settle_of_a_losing_bet_returns_the_reserve() {
    let mut vault = vault_with(800, 100, 300, 1000);
    assert!(vault.check_settle(100, 300, 0));
    vault.settle(100, 300, 0);
    assert_eq!((vault.liquidity, vault.stake, vault.reserve), (1100, 0, 0));
}

#[test]
fn settle_of_a_winning_bet_keeps_what_was_won() {
    let mut vault = vault_with(800, 100, 300, 1000);
    assert!(vault.check_settle(100, 300, 250));
    vault.settle(100, 300, 250);
    assert_eq!((vault.liquidity, vault.stake, vault.reserve), (850, 0, 0));
}

#[test]
fn check_settle_refuses_what_the_pool_has_not_booked() {
    let vault = vault_with(800, 100, 300, 1000);
    assert!(!vault.check_settle(101, 300, 0));
    assert!(!vault.check_settle(100, 301, 0));
    assert!(!vault.check_settle(100, 300, 301));
    // stakes 10 on reserve 0 and 0 on reserve 10: paying out the second in
    // full would leave the first stake uncovered
    let tight = vault_with(0, 10, 10, 0);
    assert!(!tight.check_settle(0, 10, 10));
    assert!(tight.check_settle(0, 10, 0));
}

#[test]
fn third_party_win_is_paid_from_the_free_capital() {
    let mut vault = vault_with(500, 0, 0, 500);
    assert_eq!(vault.settle_third_party(true, 200), Ok(()));
    assert_eq!(vault.liquidity, 300);
    assert_eq!(vault.settle_third_party(true, 301), Err(JogoError::InsufficientLiquidity));
    assert_eq!(vault.liquidity, 300);
}

#[test]
fn third_party_win_cannot_take_open_stakes() {
    // free capital 100, but 60 of what the pool holds are stakes
    let mut vault = vault_with(100, 60, 0, 10);
    assert_eq!(vault.settle_third_party(true, 41), Err(JogoError::InsufficientLiquidity));
    assert_eq!(vault.settle_third_party(true, 40), Ok(()));
    assert_eq!(vault.liquidity, 60);
}

#[test]
fn third_party_loss_enters_the_free_capital() {
    let mut vault = vault_with(500, 0, 0, 500);
    assert_eq!(vault.settle_third_party(false, 200), Ok(()));
    assert_eq!(vault.liquidity, 700);
    assert_eq!(vault.settle_third_party(false, 0), Ok(()));
    assert_eq!(vault.liquidity, 700);
    assert_eq!(vault.settle_third_party(false, u64::MAX), Err(JogoError::InvalidDepositAmount));
    assert_eq!(vault.liquidity, 700);
}

#[test]
fn share_price_starts_anew_once_all_shares_are_burned() {
    // 10 shares on a backing of 20: a price of two
    let mut vault = vault_with(20, 0, 0, 10);
    assert_eq!(vault.withdraw(10), Ok(20));
    assert_eq!((vault.liquidity, vault.minted_lp), (0, 0));
    // the next deposit mints one share per unit
    assert_eq!(vault.deposit(5), Ok(5));
    assert_eq!((vault.liquidity, vault.minted_lp), (5, 5));
}

#[test]
fn settle_is_defined_even_where_it_leaves_stakes_uncovered() {
    let mut vault = empty_vault();
    assert_eq!(vault.bet(100, 0), Ok(()));
    assert_eq!(vault.bet(1, 100), Ok(()));
    assert_eq!((vault.liquidity, vault.stake, vault.reserve), (1, 101, 100));
    assert!(!vault.check_settle(1, 100, 100));
    vault.settle(1, 100, 100);
    assert_eq!((vault.liquidity, vault.stake, vault.reserve), (1, 100, 0));
    assert!(!vault.is_wf());
}
