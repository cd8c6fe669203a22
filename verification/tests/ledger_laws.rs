use water_credits::{CreditToken, Signers};

fn token_with(holders: &[(u64, i128)]) -> CreditToken {
    let mut token = CreditToken::new();
    token.initialize(1, String::from("WaterCredit"), String::from("WCR")).unwrap();
    for (account, amount) in holders {
        token.mint(*account, *amount, &Signers::All).unwrap();
    }
    token
}

fn sum(token: &CreditToken, accounts: &[u64]) -> i128 {
    accounts.iter().map(|a| token.balance(*a)).sum()
}

#[test]
fn supply_equals_sum_of_balances_across_requests() {
    let accounts = [10, 11, 12];
    let mut token = token_with(&[(10, 500), (11, 300)]);
    assert_eq!(token.total_supply().unwrap(), sum(&token, &accounts));
    token.transfer(10, 12, 120, &Signers::All).unwrap();
    assert_eq!(token.total_supply().unwrap(), sum(&token, &accounts));
    token.burn(11, 100, &Signers::All).unwrap();
    assert_eq!(token.total_supply().unwrap(), sum(&token, &accounts));
    token.approve(12, 10, 50, 0, &Signers::All).unwrap();
    token.transfer_from(10, 12, 11, 50, &Signers::All).unwrap();
    assert_eq!(token.total_supply().unwrap(), sum(&token, &accounts));
    assert_eq!(token.total_supply().unwrap(), 700);
}

#[test]
fn transfer_to_self_changes_nothing() {
    let mut token = token_with(&[(10, 100)]);
    token.transfer(10, 10, 40, &Signers::All).unwrap();
    assert_eq!(token.balance(10), 100);
    assert_eq!(token.total_supply().unwrap(), 100);
    assert_eq!(
        token.transfer(10, 10, 101, &Signers::All),
        Err(water_credits::TokenError::InsufficientBalance)
    );
}

#[test]
fn transfer_to_self_near_the_limit_succeeds() {
    let mut token = token_with(&[(10, i128::MAX)]);
    token.transfer(10, 10, i128::MAX, &Signers::All).unwrap();
    assert_eq!(token.balance(10), i128::MAX);
}

#[test]
fn transfer_from_to_self_only_spends_allowance() {
    let mut token = token_with(&[(10, 100)]);
    token.approve(10, 11, 60, 0, &Signers::All).unwrap();
    token.transfer_from(11, 10, 10, 40, &Signers::Only(vec![11])).unwrap();
    assert_eq!(token.balance(10), 100);
    assert_eq!(token.allowance(10, 11), 20);
    assert_eq!(token.total_supply().unwrap(), 100);
}

#[test]
fn burn_undoes_mint() {
    let mut token = token_with(&[(10, 100)]);
    token.mint(10, 25, &Signers::All).unwrap();
    token.burn(10, 25, &Signers::All).unwrap();
    assert_eq!(token.balance(10), 100);
    assert_eq!(token.total_supply().unwrap(), 100);
}

#[test]
fn transfer_back_restores_balances() {
    let mut token = token_with(&[(10, 100), (11, 7)]);
    token.transfer(10, 11, 60, &Signers::All).unwrap();
    token.transfer(11, 10, 60, &Signers::All).unwrap();
    assert_eq!(token.balance(10), 100);
    assert_eq!(token.balance(11), 7);
}

#[test]
fn transfer_from_spends_only_its_allowance() {
    let mut token = token_with(&[(10, 100)]);
    token.approve(10, 11, 30, 0, &Signers::All).unwrap();
    token.approve(10, 12, 9, 0, &Signers::All).unwrap();
    token.transfer_from(11, 10, 13, 20, &Signers::Only(vec![11])).unwrap();
    assert_eq!(token.allowance(10, 11), 10);
    assert_eq!(token.allowance(10, 12), 9);
    assert_eq!(token.allowance(11, 10), 0);
}

#[test]
fn allowances_of_distinct_pairs_are_distinct() {
    let mut token = CreditToken::new();
    token.approve(1, 0, 5, 0, &Signers::All).unwrap();
    token.approve(0, 1, 6, 0, &Signers::All).unwrap();
    token.approve(u64::MAX, u64::MAX, 7, 0, &Signers::All).unwrap();
    assert_eq!(token.allowance(1, 0), 5);
    assert_eq!(token.allowance(0, 1), 6);
    assert_eq!(token.allowance(u64::MAX, u64::MAX), 7);
    assert_eq!(token.allowance(0, 0), 0);
}
