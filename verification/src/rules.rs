//! The arithmetic rules of the token: what a credit, a debit, a spend of an
//! allowance or a change of the supply gives, or why it is refused.
//! The ledger and the contract both decide through these functions.

use vstd::prelude::*;
use crate::error::TokenError;

verus! {

/// `x` is representable as an `i128`.
pub open spec fn fits_i128(x: int) -> bool {
    i128::MIN <= x <= i128::MAX
}

/// A mint, burn or transfer amount must be strictly positive.
pub open spec fn spec_check_positive(amount: i128) -> Result<(), TokenError> {
    if amount > 0 { Ok(()) } else { Err(TokenError::NonPositiveAmount) }
}

/// An approved amount must not be negative.
pub open spec fn spec_check_non_negative(amount: i128) -> Result<(), TokenError> {
    if amount >= 0 { Ok(()) } else { Err(TokenError::NegativeAmount) }
}

/// Adding `amount` to `balance`, refused when the sum leaves `i128`.
pub open spec fn spec_credit(balance: i128, amount: i128) -> Result<i128, TokenError> {
    if fits_i128(balance + amount) { Ok((balance + amount) as i128) } else { Err(TokenError::Overflow) }
}

/// Taking a positive `amount` from `balance`, refused when the balance is short.
pub open spec fn spec_debit(balance: i128, amount: i128) -> Result<i128, TokenError> {
    if balance < amount { Err(TokenError::InsufficientBalance) } else { Ok((balance - amount) as i128) }
}

/// Taking a positive `amount` from an allowance, refused when the allowance is short.
pub open spec fn spec_spend_allowance(allowance: i128, amount: i128) -> Result<i128, TokenError> {
    if allowance < amount { Err(TokenError::InsufficientAllowance) } else { Ok((allowance - amount) as i128) }
}

/// Taking `amount` from the total supply, refused when the difference leaves `i128`.
pub open spec fn spec_reduce_supply(total: i128, amount: i128) -> Result<i128, TokenError> {
    if fits_i128(total - amount) { Ok((total - amount) as i128) } else { Err(TokenError::Overflow) }
}

/// The new balance and total supply after minting `amount` onto `balance`.
pub open spec fn spec_mint_balances(balance: i128, total: i128, amount: i128) -> Result<(i128, i128), TokenError> {
    match spec_credit(balance, amount) {
        Err(e) => Err(e),
        Ok(b) => match spec_credit(total, amount) {
            Err(e) => Err(e),
            Ok(t) => Ok((b, t)),
        },
    }
}

/// The new balance and total supply after burning `amount` from `balance`.
pub open spec fn spec_burn_balances(balance: i128, total: i128, amount: i128) -> Result<(i128, i128), TokenError> {
    match spec_debit(balance, amount) {
        Err(e) => Err(e),
        Ok(b) => match spec_reduce_supply(total, amount) {
            Err(e) => Err(e),
            Ok(t) => Ok((b, t)),
        },
    }
}

/// The balances to write for the sender and then for the receiver, both read
/// before the move, when moving `amount`. When both are the same account the
/// move only needs the balance to cover the amount and writes it back as it was.
pub open spec fn spec_move_balances(same_account: bool, from_balance: i128, to_balance: i128, amount: i128) -> Result<(i128, i128), TokenError> {
    match spec_debit(from_balance, amount) {
        Err(e) => Err(e),
        Ok(f) => if same_account {
            Ok((from_balance, from_balance))
        } else {
            match spec_credit(to_balance, amount) {
                Err(e) => Err(e),
                Ok(t) => Ok((f, t)),
            }
        },
    }
}

/// Whether `initialize` may proceed, given whether an administrator is stored.
pub open spec fn spec_check_uninitialized(has_admin: bool) -> Result<(), TokenError> {
    if has_admin { Err(TokenError::AlreadyInitialized) } else { Ok(()) }
}

/// Refuses an amount that is not strictly positive.
pub fn check_positive(amount: i128) -> (r: Result<(), TokenError>)
    ensures
        r == spec_check_positive(amount),
{
    if amount > 0 { Ok(()) } else { Err(TokenError::NonPositiveAmount) }
}

/// Refuses a negative amount.
pub fn check_non_negative(amount: i128) -> (r: Result<(), TokenError>)
    ensures
        r == spec_check_non_negative(amount),
{
    if amount >= 0 { Ok(()) } else { Err(TokenError::NegativeAmount) }
}

/// Adds `amount` to `balance`.
pub fn credit(balance: i128, amount: i128) -> (r: Result<i128, TokenError>)
    ensures
        r == spec_credit(balance, amount),
{
    match balance.checked_add(amount) {
        Some(v) => Ok(v),
        None => Err(TokenError::Overflow),
    }
}

/// Takes a positive `amount` from `balance`.
pub fn debit(balance: i128, amount: i128) -> (r: Result<i128, TokenError>)
    requires
        amount > 0,
    ensures
        r == spec_debit(balance, amount),
{
    if balance < amount {
        Err(TokenError::InsufficientBalance)
    } else {
        Ok(balance - amount)
    }
}

/// Takes a positive `amount` from an allowance.
pub fn spend_allowance(allowance: i128, amount: i128) -> (r: Result<i128, TokenError>)
    requires
        amount > 0,
    ensures
        r == spec_spend_allowance(allowance, amount),
{
    if allowance < amount {
        Err(TokenError::InsufficientAllowance)
    } else {
        Ok(allowance - amount)
    }
}

/// Takes `amount` from the total supply.
pub fn reduce_supply(total: i128, amount: i128) -> (r: Result<i128, TokenError>)
    ensures
        r == spec_reduce_supply(total, amount),
{
    match total.checked_sub(amount) {
        Some(v) => Ok(v),
        None => Err(TokenError::Overflow),
    }
}

/// The balance and total supply after a mint; the supply is checked only
/// when the balance fits.
pub fn mint_balances(balance: i128, total: i128, amount: i128) -> (r: Result<(i128, i128), TokenError>)
    ensures
        r == spec_mint_balances(balance, total, amount),
{
    let b = credit(balance, amount)?;
    let t = credit(total, amount)?;
    Ok((b, t))
}

/// The balance and total supply after a burn of a positive amount.
pub fn burn_balances(balance: i128, total: i128, amount: i128) -> (r: Result<(i128, i128), TokenError>)
    requires
        amount > 0,
    ensures
        r == spec_burn_balances(balance, total, amount),
{
    let b = debit(balance, amount)?;
    let t = reduce_supply(total, amount)?;
    Ok((b, t))
}

/// The balances to write for the sender and then for the receiver when
/// moving a positive amount, both computed from the balances read before the
/// move; `same_account` tells whether sender and receiver are one account.
pub fn move_balances(same_account: bool, from_balance: i128, to_balance: i128, amount: i128) -> (r: Result<(i128, i128), TokenError>)
    requires
        amount > 0,
    ensures
        r == spec_move_balances(same_account, from_balance, to_balance, amount),
{
    let f = debit(from_balance, amount)?;
    if same_account {
        return Ok((from_balance, from_balance));
    }
    let t = credit(to_balance, amount)?;
    Ok((f, t))
}

/// Refuses to initialize a token that already has an administrator.
pub fn check_uninitialized(has_admin: bool) -> (r: Result<(), TokenError>)
    ensures
        r == spec_check_uninitialized(has_admin),
{
    if has_admin { Err(TokenError::AlreadyInitialized) } else { Ok(()) }
}

} // verus!
