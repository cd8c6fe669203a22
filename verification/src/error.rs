use vstd::prelude::*;

verus! {

/// The reasons for which the token refuses a request. A refused request
/// leaves the ledger exactly as it was.
#[derive(Clone, Copy, Debug, PartialEq, Eq, Structural)]
pub enum TokenError {
    /// `initialize` was called on a token that already has an administrator.
    AlreadyInitialized,
    /// The token has not been initialized: it has no administrator, name,
    /// symbol, decimals or total supply yet.
    NotInitialized,
    /// A mint, burn or transfer amount that is zero or negative.
    NonPositiveAmount,
    /// An approval amount that is negative.
    NegativeAmount,
    /// The account whose authorization the request needs did not give it.
    Unauthorized,
    /// The account holds less than the amount to be debited.
    InsufficientBalance,
    /// The spender's allowance is less than the amount to be moved.
    InsufficientAllowance,
    /// A balance or the total supply would leave the range of `i128`.
    Overflow,
}

} // verus!
