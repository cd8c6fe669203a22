use water_credits::{CreditToken, Signers, TokenError};

const ADMIN: u64 = 1;
const USER: u64 = 2;
const USER2: u64 = 3;
const RECIPIENT: u64 = 4;

fn initialized() -> CreditToken {
    let mut token = CreditToken::new();
    token
        .initialize(ADMIN, String::from("WaterCredit"), String::from("WCR"))
        .unwrap();
    token
}

#[test]
fn test_initialize_sets_values() {
    let token = initialized();
    assert_eq!(token.name().unwrap(), "WaterCredit");
    assert_eq!(token.symbol().unwrap(), "WCR");
    assert_eq!(token.decimals().unwrap(), 7);
    assert_eq!(token.total_supply().unwrap(), 0);
}

#[test]
fn test_initialize_panics_twice() {
    let mut token = initialized();
    let result = token.initialize(ADMIN, String::from("WaterCredit"), String::from("WCR"));
    assert!(result.is_err());
}

#[test]
fn test_mint_increases_balance_and_supply() {
    let mut token = initialized();
    token.mint(USER, 1000, &Signers::All).unwrap();
    assert_eq!(token.balance(USER), 1000);
    assert_eq!(token.total_supply().unwrap(), 1000);
}

#[test]
fn test_burn_decreases_balance_and_supply() {
    let mut token = initialized();
    token.mint(USER, 1000, &Signers::All).unwrap();
    token.burn(USER, 300, &Signers::All).unwrap();
    assert_eq!(token.balance(USER), 700);
    assert_eq!(token.total_supply().unwrap(), 700);
}

#[test]
fn test_burn_fails_if_insufficient() {
    let mut token = initialized();
    token.mint(USER, 100, &Signers::All).unwrap();
    let result = token.burn(USER, 200, &Signers::All);
    assert!(result.is_err());
}

#[test]
fn test_transfer_moves_balance() {
    let mut token = initialized();
    token.mint(USER, 1000, &Signers::All).unwrap();
    token.transfer(USER, USER2, 300, &Signers::All).unwrap();
    assert_eq!(token.balance(USER), 700);
    assert_eq!(token.balance(USER2), 300);
}

#[test]
fn test_transfer_fails_if_insufficient() {
    let mut token = initialized();
    token.mint(USER, 100, &Signers::All).unwrap();
    let result = token.transfer(USER, USER2, 200, &Signers::All);
    assert!(result.is_err());
}

#[test]
fn test_transfer_from_with_allowance() {
    let mut token = initialized();
    let owner = USER;
    let spender = USER2;
    token.mint(owner, 1000, &Signers::All).unwrap();
    token.approve(owner, spender, 500, 100000, &Signers::All).unwrap();
    token.transfer_from(spender, owner, RECIPIENT, 200, &Signers::All).unwrap();
    assert_eq!(token.balance(owner), 800);
    assert_eq!(token.balance(RECIPIENT), 200);
    assert_eq!(token.allowance(owner, spender), 300);
}

#[test]
fn test_transfer_from_fails_without_allowance() {
    let mut token = initialized();
    let owner = USER;
    let spender = USER2;
    token.mint(owner, 1000, &Signers::All).unwrap();
    let result = token.transfer_from(spender, owner, RECIPIENT, 200, &Signers::All);
    assert!(result.is_err());
}

#[test]
fn test_approve_sets_and_overwrites() {
    let mut token = initialized();
    let owner = USER;
    let spender = USER2;
    token.approve(owner, spender, 100, 100000, &Signers::All).unwrap();
    assert_eq!(token.allowance(owner, spender), 100);
    token.approve(owner, spender, 250, 100001, &Signers::All).unwrap();
    assert_eq!(token.allowance(owner, spender), 250);
}

#[test]
fn refused_requests_name_their_reason() {
    let mut fresh = CreditToken::new();
    assert_eq!(fresh.mint(USER, 10, &Signers::All), Err(TokenError::NotInitialized));
    assert_eq!(fresh.total_supply(), Err(TokenError::NotInitialized));
    assert_eq!(fresh.name(), Err(TokenError::NotInitialized));
    assert_eq!(fresh.symbol(), Err(TokenError::NotInitialized));
    assert_eq!(fresh.decimals(), Err(TokenError::NotInitialized));
    assert_eq!(fresh.set_admin(USER, &Signers::All), Err(TokenError::NotInitialized));

    let mut token = initialized();
    assert_eq!(
        token.initialize(USER, String::from("x"), String::from("y")),
        Err(TokenError::AlreadyInitialized)
    );
    assert_eq!(token.mint(USER, 0, &Signers::All), Err(TokenError::NonPositiveAmount));
    assert_eq!(token.burn(USER, -5, &Signers::All), Err(TokenError::NonPositiveAmount));
    assert_eq!(token.transfer(USER, USER2, 0, &Signers::All), Err(TokenError::NonPositiveAmount));
    assert_eq!(
        token.approve(USER, USER2, -1, 0, &Signers::All),
        Err(TokenError::NegativeAmount)
    );
    assert_eq!(
        token.mint(USER, 10, &Signers::Only(vec![USER])),
        Err(TokenError::Unauthorized)
    );
    token.mint(USER, 50, &Signers::Only(vec![ADMIN])).unwrap();
    assert_eq!(
        token.transfer(USER, USER2, 10, &Signers::Only(vec![USER2])),
        Err(TokenError::Unauthorized)
    );
    assert_eq!(
        token.transfer(USER, USER2, 60, &Signers::Only(vec![USER])),
        Err(TokenError::InsufficientBalance)
    );
    assert_eq!(
        token.burn(USER, 60, &Signers::Only(vec![ADMIN])),
        Err(TokenError::InsufficientBalance)
    );
    assert_eq!(
        token.transfer_from(USER2, USER, RECIPIENT, 1, &Signers::Only(vec![USER2])),
        Err(TokenError::InsufficientAllowance)
    );
    token.approve(USER, USER2, 100, 0, &Signers::Only(vec![USER])).unwrap();
    assert_eq!(
        token.transfer_from(USER2, USER, RECIPIENT, 80, &Signers::Only(vec![USER2])),
        Err(TokenError::InsufficientBalance)
    );
    assert_eq!(token.mint(USER2, i128::MAX, &Signers::All), Err(TokenError::Overflow));
    // refused requests changed nothing
    assert_eq!(token.balance(USER), 50);
    assert_eq!(token.balance(USER2), 0);
    assert_eq!(token.total_supply(), Ok(50));
    assert_eq!(token.allowance(USER, USER2), 100);
}

#[test]
fn set_admin_hands_over_minting() {
    let mut token = initialized();
    assert_eq!(token.set_admin(USER, &Signers::Only(vec![USER])), Err(TokenError::Unauthorized));
    token.set_admin(USER, &Signers::Only(vec![ADMIN])).unwrap();
    assert_eq!(token.mint(USER2, 5, &Signers::Only(vec![ADMIN])), Err(TokenError::Unauthorized));
    token.mint(USER2, 5, &Signers::Only(vec![USER])).unwrap();
    assert_eq!(token.balance(USER2), 5);
}

#[test]
fn approve_and_transfer_work_before_initialization() {
    let mut token = CreditToken::new();
    token.approve(USER, USER2, 40, 0, &Signers::All).unwrap();
    assert_eq!(token.allowance(USER, USER2), 40);
    assert_eq!(token.balance(USER), 0);
    assert_eq!(
        token.transfer(USER, USER2, 1, &Signers::All),
        Err(TokenError::InsufficientBalance)
    );
}
