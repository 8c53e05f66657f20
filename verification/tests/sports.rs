use jogo::pubkey::Pubkey;
use jogo::sports::admin::Admin;
use jogo::sports::club::{Club, Credential, CredentialState, Game};
use jogo::sports::error::SportsError;
use jogo::sports::instructions::{
    bet, close_bet, close_club, close_game, init_club, settle, split_prize, start_game, Payout,
    CLUB_CREATION_FEE,
};

fn who(byte: u8) -> Pubkey {
    Pubkey::new_from_array([byte; 32])
}

fn sports_club(liquidity: u64, staking: u64, locks: [u64; 3]) -> Club {
    let mut club = Club::new(who(1), who(2), who(3), [4; 32]);
    club.liquidity = liquidity;
    club.staking = staking;
    club.locking_0 = locks[0];
    club.locking_1 = locks[1];
    club.locking_2 = locks[2];
    assert!(club.is_wf());
    club
}

fn amounts(club: &Club) -> (u64, u64, [u64; 3]) {
    (club.liquidity, club.staking, [club.locking_0, club.locking_1, club.locking_2])
}

fn sports_admin(operator: u8) -> Admin {
    let mut admin = Admin::new(who(100), who(101));
    assert!(admin.assign_operator(who(operator)));
    admin
}

fn ticket(direction: u8, stake: u64, lock: u64) -> Credential {
    Credential {
        club: who(50),
        player: who(51),
        identifier: [52; 32],
        direction,
        stake,
        lock,
        state: CredentialState::Open,
    }
}

#[test]
fn sports_club_starts_initialized_and_idle() {
    let club = Club::new(who(1), who(2), who(3), [4; 32]);
    assert!(club.initialized);
    assert_eq!(club.admin.to_bytes(), [1; 32]);
    assert_eq!(club.owner.to_bytes(), [2; 32]);
    assert_eq!(club.token_mint.to_bytes(), [3; 32]);
    assert_eq!(club.identifier, [4; 32]);
    assert_eq!(amounts(&club), (0, 0, [0, 0, 0]));
    assert!(club.can_close());
    assert_eq!(club.hedged_locking(), 0);
}

#[test]
fn sports_club_can_close_only_when_idle() {
    assert!(sports_club(70, 0, [0, 0, 0]).can_close());
    assert!(!sports_club(70, 1, [0, 0, 0]).can_close());
    assert!(!sports_club(70, 0, [1, 0, 0]).can_close());
    assert!(!sports_club(70, 0, [0, 1, 0]).can_close());
    assert!(!sports_club(70, 0, [0, 0, 1]).can_close());
}

#[test]
fn sports_deposit_adds_liquidity() {
    let mut club = sports_club(5, 0, [0, 0, 0]);
    assert_eq!(club.deposit(0), Err(SportsError::InvalidDepositAmount));
    assert_eq!(club.deposit(10), Ok(()));
    assert_eq!(club.liquidity, 15);
    assert_eq!(club.deposit(u64::MAX - 14), Err(SportsError::InvalidDepositAmount));
    assert_eq!(club.deposit(u64::MAX - 15), Ok(()));
    assert_eq!(club.liquidity, u64::MAX);
}

#[test]
fn sports_withdraw_keeps_exposure_and_stakes_covered() {
    // hedged exposure 300, stakes 400
    let mut club = sports_club(1000, 400, [300, 0, 0]);
    assert_eq!(club.withdraw(0), Err(SportsError::InvalidWithdrawAmount));
    assert_eq!(club.withdraw(601), Err(SportsError::InsufficientLiquidity));
    assert_eq!(club.withdraw(1001), Err(SportsError::InsufficientLiquidity));
    assert_eq!(club.withdraw(600), Ok(()));
    assert_eq!(club.liquidity, 400);
    // hedged exposure 300, stakes 100
    let mut hedged = sports_club(1000, 100, [300, 0, 0]);
    assert_eq!(hedged.withdraw(701), Err(SportsError::InsufficientLiquidity));
    assert_eq!(hedged.withdraw(700), Ok(()));
    assert_eq!(hedged.liquidity, 300);
}

#[test]
fn sports_bet_adds_stake_and_lock() {
    let mut club = sports_club(1000, 0, [0, 0, 0]);
    assert_eq!(club.bet(1, 10, 30), Ok(()));
    assert_eq!(amounts(&club), (1010, 10, [0, 30, 0]));
    assert_eq!(club.bet(0, 5, 0), Ok(()));
    assert_eq!(amounts(&club), (1015, 15, [0, 30, 0]));
}

#[test]
fn sports_bet_rejects_what_it_cannot_book() {
    let mut club = sports_club(100, 0, [0, 0, 0]);
    assert_eq!(club.bet(3, 10, 30), Err(SportsError::InvalidDirection));
    assert_eq!(club.bet(0, 10, 111), Err(SportsError::InsufficientLiquidity));
    assert_eq!(club.bet(0, 10, 110), Ok(()));
    let mut full = sports_club(100, u64::MAX, [u64::MAX, 0, 0]);
    assert_eq!(full.bet(0, 0, 1), Err(SportsError::InvalidLockAmount));
    assert_eq!(full.bet(0, 1, 0), Err(SportsError::InvalidStakeAmount));
    assert_eq!(amounts(&full), (100, u64::MAX, [u64::MAX, 0, 0]));
}

#[test]
fn sports_close_bet_takes_stake_and_lock_back_out() {
    let mut club = sports_club(1010, 10, [0, 30, 0]);
    assert_eq!(club.close_bet(&ticket(1, 10, 30)), Ok(()));
    assert_eq!(amounts(&club), (1000, 0, [0, 0, 0]));
}

#[test]
fn sports_close_bet_rejects_what_was_not_booked() {
    let mut club = sports_club(5, 10, [0, 30, 0]);
    assert_eq!(club.close_bet(&ticket(4, 10, 30)), Err(SportsError::InvalidDirection));
    assert_eq!(club.close_bet(&ticket(1, 10, 31)), Err(SportsError::InvalidLockAmount));
    assert_eq!(club.close_bet(&ticket(1, 11, 30)), Err(SportsError::InvalidStakeAmount));
    assert_eq!(club.close_bet(&ticket(1, 10, 30)), Err(SportsError::InsufficientLiquidity));
    assert_eq!(amounts(&club), (5, 10, [0, 30, 0]));
}

#[test]
fn sports_settle_keeps_the_stakes() {
    let mut club = sports_club(1010, 10, [0, 30, 0]);
    assert_eq!(club.settle(true, &ticket(1, 10, 30)), Ok(()));
    assert_eq!(amounts(&club), (980, 10, [0, 0, 0]));
    let mut lost = sports_club(1010, 10, [0, 30, 0]);
    assert_eq!(lost.settle(false, &ticket(1, 10, 30)), Ok(()));
    assert_eq!(amounts(&lost), (1010, 10, [0, 0, 0]));
}

#[test]
fn sports_settle_rejects_what_it_cannot_release_or_pay() {
    let mut club = sports_club(20, 10, [0, 30, 0]);
    assert_eq!(club.settle(true, &ticket(3, 10, 30)), Err(SportsError::InvalidDirection));
    assert_eq!(club.settle(true, &ticket(0, 10, 1)), Err(SportsError::InvalidLockAmount));
    assert_eq!(club.settle(true, &ticket(1, 10, 30)), Err(SportsError::InsufficientLiquidity));
    assert_eq!(amounts(&club), (20, 10, [0, 30, 0]));
}

#[test]
fn game_counts_the_stakes_of_its_bets() {
    let mut game = start_game(who(9), [8; 32]);
    assert_eq!(game.club.to_bytes(), [9; 32]);
    assert_eq!(game.identifier, [8; 32]);
    assert_eq!(game.staking, 0);
    assert!(game.can_close(true));
    game.bet(30);
    game.bet(12);
    assert_eq!(game.staking, 42);
    assert!(!game.can_close(true));
    assert!(game.can_close(false));
    game.close_bet(42);
    assert!(game.can_close(true));
}

#[test]
fn close_game_releases_its_stakes() {
    let mut club = sports_club(1000, 50, [0, 0, 0]);
    let game = Game { club: who(9), identifier: [8; 32], staking: 20 };
    assert_eq!(close_game(&mut club, game, true), Err(SportsError::GameCannotClose));
    assert_eq!(club.staking, 50);
    assert_eq!(close_game(&mut club, game, false), Ok(()));
    assert_eq!(club.staking, 30);
    let large = Game { club: who(9), identifier: [8; 32], staking: 31 };
    assert_eq!(close_game(&mut club, large, false), Err(SportsError::InvalidStakeAmount));
    let done = Game { club: who(9), identifier: [8; 32], staking: 0 };
    assert_eq!(close_game(&mut club, done, true), Ok(()));
    assert_eq!(club.staking, 30);
}

#[test]
fn init_club_charges_the_creation_fee_once() {
    let mut club = Club::new(who(0), who(0), who(0), [0; 32]);
    club.initialized = false;
    assert_eq!(init_club(&mut club, who(1), who(2), who(3), [4; 32]), 5_000_000);
    assert_eq!(CLUB_CREATION_FEE, 5_000_000);
    assert!(club.initialized);
    assert_eq!(club.owner.to_bytes(), [2; 32]);
    club.liquidity = 77;
    assert_eq!(init_club(&mut club, who(9), who(9), who(9), [9; 32]), 0);
    assert_eq!(club.owner.to_bytes(), [2; 32]);
    assert_eq!(club.liquidity, 77);
}

#[test]
fn close_club_needs_an_idle_club() {
    assert_eq!(close_club(sports_club(70, 0, [0, 0, 0])), Ok(()));
    assert_eq!(close_club(sports_club(70, 1, [0, 0, 0])), Err(SportsError::CannotCloseClub));
    assert_eq!(close_club(sports_club(70, 0, [0, 0, 9])), Err(SportsError::CannotCloseClub));
}

#[test]
fn split_prize_takes_half_a_percent() {
    assert_eq!(split_prize(10_000), Payout { fee: 50, receiving: 9_950 });
    assert_eq!(split_prize(199), Payout { fee: 0, receiving: 199 });
    assert_eq!(split_prize(200), Payout { fee: 1, receiving: 199 });
    assert_eq!(split_prize(0), Payout { fee: 0, receiving: 0 });
    assert_eq!(
        split_prize(u64::MAX),
        Payout { fee: 92233720368547758, receiving: u64::MAX - 92233720368547758 }
    );
}

#[test]
fn sports_operator_bet_creates_an_open_credential() {
    let admin = sports_admin(7);
    let mut club = sports_club(1000, 0, [0, 0, 0]);
    let made = bet(&admin, &mut club, &who(7), who(50), who(51), [52; 32], 0, 10, 30).unwrap();
    assert_eq!(made.club.to_bytes(), [50; 32]);
    assert_eq!(made.player.to_bytes(), [51; 32]);
    assert_eq!((made.direction, made.stake, made.lock), (0, 10, 30));
    assert_eq!(made.state, CredentialState::Open);
    assert_eq!(amounts(&club), (1010, 10, [30, 0, 0]));
    let out = bet(&admin, &mut club, &who(8), who(50), who(51), [52; 32], 0, 10, 30);
    assert_eq!(out.unwrap_err(), SportsError::InvalidOperator);
    let out = bet(&admin, &mut club, &who(7), who(50), who(51), [52; 32], 7, 10, 30);
    assert_eq!(out.unwrap_err(), SportsError::InvalidDirection);
    assert_eq!(amounts(&club), (1010, 10, [30, 0, 0]));
}

#[test]
fn cancel_returns_the_stake_once() {
    let mut club = sports_club(1010, 10, [30, 0, 0]);
    let mut credential = ticket(0, 10, 30);
    assert_eq!(close_bet(&mut club, &mut credential), Ok(10));
    assert_eq!(credential.state, CredentialState::Cancelled);
    assert_eq!(amounts(&club), (1000, 0, [0, 0, 0]));
    assert_eq!(close_bet(&mut club, &mut credential), Err(SportsError::CredentialClosed));
    let admin = sports_admin(7);
    let out = settle(&admin, &mut club, &mut credential, &who(7), 0);
    assert_eq!(out, Err(SportsError::CredentialClosed));
    assert_eq!(amounts(&club), (1000, 0, [0, 0, 0]));
}

#[test]
fn cancel_fails_without_touching_anything() {
    let mut club = sports_club(5, 10, [30, 0, 0]);
    let mut credential = ticket(0, 10, 30);
    assert_eq!(close_bet(&mut club, &mut credential), Err(SportsError::InsufficientLiquidity));
    assert_eq!(credential.state, CredentialState::Open);
    assert_eq!(amounts(&club), (5, 10, [30, 0, 0]));
}

#[test]
fn sports_settle_splits_the_prize_of_a_winner() {
    let admin = sports_admin(7);
    let mut club = sports_club(20_000, 10, [0, 10_000, 0]);
    let mut credential = ticket(1, 10, 10_000);
    let out = settle(&admin, &mut club, &mut credential, &who(7), 1);
    assert_eq!(out, Ok(Payout { fee: 50, receiving: 9_950 }));
    assert_eq!(credential.state, CredentialState::Settled);
    assert_eq!(amounts(&club), (10_000, 10, [0, 0, 0]));
}

#[test]
fn sports_settle_pays_nothing_to_a_loser() {
    let admin = sports_admin(7);
    let mut club = sports_club(20_000, 10, [0, 10_000, 0]);
    let mut credential = ticket(1, 10, 10_000);
    let out = settle(&admin, &mut club, &mut credential, &who(7), 2);
    assert_eq!(out, Ok(Payout { fee: 0, receiving: 0 }));
    assert_eq!(credential.state, CredentialState::Settled);
    assert_eq!(amounts(&club), (20_000, 10, [0, 0, 0]));
}

#[test]
fn sports_settle_happens_once_and_needs_an_operator() {
    let admin = sports_admin(7);
    let mut club = sports_club(20_000, 10, [0, 10_000, 0]);
    let mut credential = ticket(1, 10, 5_000);
    let out = settle(&admin, &mut club, &mut credential, &who(8), 1);
    assert_eq!(out, Err(SportsError::InvalidOperator));
    assert_eq!(credential.state, CredentialState::Open);
    assert!(settle(&admin, &mut club, &mut credential, &who(7), 1).is_ok());
    let again = settle(&admin, &mut club, &mut credential, &who(7), 1);
    assert_eq!(again, Err(SportsError::CredentialClosed));
    assert_eq!(close_bet(&mut club, &mut credential), Err(SportsError::CredentialClosed));
    assert_eq!(amounts(&club), (15_000, 10, [0, 5_000, 0]));
}

#[test]
fn fee_receiver_can_be_changed() {
    let mut admin = Admin::new(who(100), who(101));
    assert_eq!(admin.owner.to_bytes(), [100; 32]);
    assert_eq!(admin.change_fee_receiver(who(102)).to_bytes(), [101; 32]);
    assert_eq!(admin.fee_receiver.to_bytes(), [102; 32]);
}

#[test]
fn sports_admin_keeps_a_bounded_list() {
    let mut admin = Admin::new(who(100), who(101));
    for operator in 1..=4 {
        assert!(admin.assign_operator(who(operator)));
    }
    assert!(!admin.assign_operator(who(5)));
    assert!(admin.assign_operator(who(2)));
    assert_eq!(admin.operators.len(), 4);
    admin.remove_operator(&who(2));
    assert!(!admin.is_operator(&who(2)));
    assert!(admin.assign_operator(who(5)));
    assert!(admin.is_operator(&who(5)));
}

#[test]
fn sports_settle_must_leave_the_exposure_covered() {
    let mut club = sports_club(200, 0, [100, 150, 150]);
    assert_eq!(club.hedged_locking(), 200);
    assert_eq!(club.settle(true, &ticket(0, 10, 100)), Err(SportsError::InsufficientLiquidity));
    assert_eq!(amounts(&club), (200, 0, [100, 150, 150]));
    assert_eq!(club.settle(false, &ticket(0, 10, 100)), Err(SportsError::InsufficientLiquidity));
    assert_eq!(amounts(&club), (200, 0, [100, 150, 150]));
    let mut richer = sports_club(400, 0, [100, 150, 150]);
    assert_eq!(richer.settle(true, &ticket(0, 10, 100)), Ok(()));
    assert_eq!(amounts(&richer), (300, 0, [0, 150, 150]));
}

#[test]
fn sports_operator_settle_that_breaks_solvency_keeps_the_credential_open() {
    let admin = sports_admin(7);
    let mut club = sports_club(200, 0, [100, 150, 150]);
    let mut credential = ticket(0, 10, 100);
    let out = settle(&admin, &mut club, &mut credential, &who(7), 0);
    assert_eq!(out, Err(SportsError::InsufficientLiquidity));
    assert_eq!(credential.state, CredentialState::Open);
    assert_eq!(amounts(&club), (200, 0, [100, 150, 150]));
}
