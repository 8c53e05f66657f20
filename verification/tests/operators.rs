use jogo::error::JogoError;
use jogo::game::admin::Admin;
use jogo::game::error::GameError;
use jogo::operators::{contains, insert, is_list_wf, remove, MAX_OPERATORS};
use jogo::pubkey::Pubkey;
use jogo::sports::error::SportsError;

fn op(byte: u8) -> Pubkey {
    Pubkey::new_from_array([byte; 32])
}

fn bytes_of(list: &[Pubkey]) -> Vec<u8> {
    list.iter().map(|key| key.to_bytes()[0]).collect()
}

#[test]
fn new_admin_authorizes_nobody() {
    let admin = Admin::new(op(1));
    assert_eq!(admin.owner.to_bytes(), [1; 32]);
    assert!(admin.operators.is_empty());
    assert!(!admin.is_operator(&op(1)));
}

#[test]
fn assign_operator_adds_each_operator_once() {
    let mut admin = Admin::new(op(1));
    assert!(admin.assign_operator(op(5)));
    assert!(admin.assign_operator(op(6)));
    assert!(admin.assign_operator(op(5)));
    assert_eq!(bytes_of(&admin.operators), vec![5, 6]);
    assert!(admin.is_operator(&op(5)));
    assert!(admin.is_operator(&op(6)));
    assert!(!admin.is_operator(&op(7)));
}

#[test]
fn assign_operator_stops_at_the_capacity() {
    assert_eq!(MAX_OPERATORS, 4);
    let mut admin = Admin::new(op(1));
    for operator in [5, 6, 7, 8] {
        assert!(admin.assign_operator(op(operator)));
    }
    assert!(!admin.assign_operator(op(9)));
    assert!(!admin.is_operator(&op(9)));
    assert!(admin.assign_operator(op(8)));
    assert_eq!(bytes_of(&admin.operators), vec![5, 6, 7, 8]);
}

#[test]
fn remove_operator_keeps_the_others_in_order() {
    let mut admin = Admin::new(op(1));
    for operator in [5, 6, 7, 8] {
        admin.assign_operator(op(operator));
    }
    admin.remove_operator(&op(6));
    assert_eq!(bytes_of(&admin.operators), vec![5, 7, 8]);
    admin.remove_operator(&op(6));
    assert_eq!(bytes_of(&admin.operators), vec![5, 7, 8]);
    admin.remove_operator(&op(8));
    admin.remove_operator(&op(5));
    assert_eq!(bytes_of(&admin.operators), vec![7]);
}

#[test]
fn list_functions_follow_the_same_rules() {
    let mut list: Vec<Pubkey> = Vec::new();
    assert!(insert(&mut list, op(3)));
    assert!(insert(&mut list, op(4)));
    assert!(contains(&list, &op(3)));
    assert!(!contains(&list, &op(5)));
    remove(&mut list, &op(3));
    assert_eq!(bytes_of(&list), vec![4]);
    let mut doubled: Vec<Pubkey> = vec![op(1), op(2), op(1), op(3), op(1)];
    remove(&mut doubled, &op(1));
    assert_eq!(bytes_of(&doubled), vec![2, 3]);
}

#[test]
fn keys_differ_when_one_byte_differs() {
    let mut bytes = [9u8; 32];
    let key = Pubkey::new_from_array(bytes);
    bytes[31] = 8;
    let mut list: Vec<Pubkey> = vec![Pubkey::new_from_array(bytes)];
    assert!(!contains(&list, &key));
    assert!(insert(&mut list, key));
    assert_eq!(list.len(), 2);
}

#[test]
fn jogo_errors_have_their_messages() {
    assert_eq!(JogoError::InvalidFraction.message(), "Invalid fraction");
    assert_eq!(JogoError::FractionOverflow.message(), "Fraction overflow");
    assert_eq!(JogoError::InvalidEd25519Instruction.message(), "Invalid Ed25519 instruction data");
    assert_eq!(JogoError::IncorrectEd25519Signer.message(), "Incorrect Ed25519 signer");
    assert_eq!(JogoError::InvalidEd25519Message.message(), "Invalid Ed25519 message");
    assert_eq!(JogoError::InvalidDepositAmount.message(), "Invalid deposit amount");
    assert_eq!(JogoError::InvalidWithdrawAmount.message(), "Invalid withdraw amount");
    assert_eq!(JogoError::InsufficientLiquidity.message(), "Insufficient liquidity");
    assert_eq!(JogoError::RandomnessNotFulfilled.message(), "Randomness not fulfilled");
    assert_eq!(JogoError::InvalidWinningRate.message(), "Invalid winning rate");
    assert_eq!(JogoError::InvalidOdd.message(), "Invalid odd");
    assert_eq!(JogoError::InvalidPointDecimals.message(), "Invalid point decimals");
    assert_eq!(JogoError::InvalidStakeAmount.message(), "Invalid stake amount");
    assert_eq!(JogoError::InvalidBetMessage.message(), "Invalid bet message");
    assert_eq!(JogoError::NoBetSignature.message(), "No bet signature");
    assert_eq!(
        JogoError::InvalidThirdPartyPlayerMessage.message(),
        "Invalid 3rd-party player message"
    );
    assert_eq!(
        JogoError::InvalidThirdPartyPlayerNonce.message(),
        "Invalid 3rd-party player nonce"
    );
}

#[test]
fn game_errors_have_their_messages() {
    assert_eq!(GameError::InvalidOperator.message(), "Invalid operator");
    assert_eq!(GameError::InvalidDirection.message(), "Invalid direction");
    assert_eq!(GameError::InvalidDepositAmount.message(), "Invalid deposit amount");
    assert_eq!(GameError::InvalidWithdrawAmount.message(), "Invalid withdraw amount");
    assert_eq!(GameError::InvalidStakeAmount.message(), "Invalid stake amount");
    assert_eq!(GameError::InvalidLockAmount.message(), "Invalid lock amount");
    assert_eq!(GameError::InsufficientLiquidity.message(), "Insufficient liquidity");
    assert_eq!(GameError::DirectionNotEquals.message(), "Direction not equals");
    assert_eq!(GameError::InvalidRound.message(), "Invalid round");
    assert_eq!(GameError::MismatchedBetRound.message(), "Mismatched bet round");
    assert_eq!(GameError::MismatchedSettleRound.message(), "Mismatched settle round");
    assert_eq!(GameError::InvalidRewardAmount.message(), "Invalid reward amount");
    assert_eq!(GameError::CredentialClosed.message(), "Credential closed");
}

#[test]
fn sports_errors_have_their_messages() {
    assert_eq!(SportsError::InvalidOperator.message(), "Invalid operator");
    assert_eq!(SportsError::CannotCloseClub.message(), "Cannot close club");
    assert_eq!(SportsError::InvalidDepositAmount.message(), "Invalid deposit amount");
    assert_eq!(SportsError::InvalidWithdrawAmount.message(), "Invalid withdraw amount");
    assert_eq!(SportsError::InvalidStakeAmount.message(), "Invalid stake amount");
    assert_eq!(SportsError::InvalidLockAmount.message(), "Invalid lock amount");
    assert_eq!(SportsError::InsufficientLiquidity.message(), "Insufficient liquidity");
    assert_eq!(SportsError::InvalidIdentifier.message(), "Invalid Identifier");
    assert_eq!(SportsError::GameCannotClose.message(), "Game can not close");
    assert_eq!(SportsError::InvalidDirection.message(), "Invalid direction");
    assert_eq!(SportsError::CredentialClosed.message(), "Credential closed");
}

#[test]
fn list_is_well_formed_without_duplicates_and_within_capacity() {
    assert!(is_list_wf(&vec![]));
    assert!(is_list_wf(&vec![op(1), op(2), op(3), op(4)]));
    assert!(!is_list_wf(&vec![op(1), op(2), op(3), op(4), op(5)]));
    assert!(!is_list_wf(&vec![op(1), op(2), op(1)]));
    assert!(!is_list_wf(&vec![op(2), op(2)]));
    assert!(!is_list_wf(&vec![op(1), op(2), op(3), op(3)]));
}
