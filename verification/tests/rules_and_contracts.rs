use water_credits::rules::{
    burn_balances, check_non_negative, check_positive, check_uninitialized, credit, debit, mint_balances,
    move_balances, reduce_supply, spend_allowance,
};
use water_credits::{
    CreditFactory, Governance, ProjectRegistry, RetirementRegistry, Signers, TokenError,
    VerificationOracle,
};

#[test]
fn amount_checks() {
    assert_eq!(check_positive(1), Ok(()));
    assert_eq!(check_positive(0), Err(TokenError::NonPositiveAmount));
    assert_eq!(check_non_negative(0), Ok(()));
    assert_eq!(check_non_negative(-1), Err(TokenError::NegativeAmount));
}

#[test]
fn arithmetic_rules() {
    assert_eq!(credit(5, 7), Ok(12));
    assert_eq!(credit(i128::MAX, 1), Err(TokenError::Overflow));
    assert_eq!(debit(10, 4), Ok(6));
    assert_eq!(debit(3, 4), Err(TokenError::InsufficientBalance));
    assert_eq!(spend_allowance(10, 10), Ok(0));
    assert_eq!(spend_allowance(9, 10), Err(TokenError::InsufficientAllowance));
    assert_eq!(reduce_supply(10, 4), Ok(6));
    assert_eq!(reduce_supply(i128::MIN, 1), Err(TokenError::Overflow));
    assert_eq!(mint_balances(1, 2, 3), Ok((4, 5)));
    assert_eq!(mint_balances(0, i128::MAX, 1), Err(TokenError::Overflow));
    assert_eq!(burn_balances(5, 9, 5), Ok((0, 4)));
    assert_eq!(burn_balances(4, 9, 5), Err(TokenError::InsufficientBalance));
    assert_eq!(move_balances(false, 5, 1, 2), Ok((3, 3)));
    assert_eq!(move_balances(false, 5, i128::MAX, 2), Err(TokenError::Overflow));
    assert_eq!(move_balances(true, 5, 5, 2), Ok((5, 5)));
    assert_eq!(move_balances(true, i128::MAX, i128::MAX, 2), Ok((i128::MAX, i128::MAX)));
    assert_eq!(move_balances(true, 1, 1, 2), Err(TokenError::InsufficientBalance));
    assert_eq!(check_uninitialized(false), Ok(()));
    assert_eq!(check_uninitialized(true), Err(TokenError::AlreadyInitialized));
}

#[test]
fn signers_decide_authorization() {
    assert!(Signers::All.has_signed(42));
    assert!(Signers::Only(vec![1, 42]).has_signed(42));
    assert!(!Signers::Only(vec![1, 2]).has_signed(42));
    assert!(!Signers::Only(vec![]).has_signed(0));
}

#[test]
fn companion_contracts_initialize() {
    CreditFactory::initialize(1, [0u8; 32]);
    Governance::initialize(1);
    ProjectRegistry::initialize(1);
    RetirementRegistry::initialize(1);
    VerificationOracle::initialize(1);
}
