//! What each request of the token answers, for every input: the error it is
//! refused with, or the state it leaves, in terms of balances, allowances and
//! the administrator read before the request.

use vstd::prelude::*;
use crate::account::{AccountId, Signers};
use crate::error::TokenError;
use crate::rules::fits_i128;
use crate::token::{TokenView, DECIMALS};

verus! {

/// `after` differs from `before` in its balances at most.
pub open spec fn only_balances_differ(before: TokenView, after: TokenView) -> bool {
    after == (TokenView { balances: after.balances, ..before })
}

/// Every account's balance in `after` is what it was in `before`, except that
/// `amount` left `from` and reached `to`; nothing moves when they are the
/// same account.
pub open spec fn balances_moved(before: TokenView, after: TokenView, from: AccountId, to: AccountId, amount: i128) -> bool {
    forall|a: AccountId| #[trigger] after.balance_of(a) == if from == to {
        before.balance_of(a) as int
    } else if a == from {
        before.balance_of(a) - amount
    } else if a == to {
        before.balance_of(a) + amount
    } else {
        before.balance_of(a) as int
    }
}

/// `initialize` is refused exactly when an administrator is recorded; otherwise
/// it records the given administrator, name and symbol, 7 decimals and a total
/// supply of 0, and keeps every balance and allowance.
pub proof fn lemma_initialize_outcome(s: TokenView, admin: AccountId, name: Seq<char>, symbol: Seq<char>)
    ensures
        s.admin is Some ==> s.initialize(admin, name, symbol) == Err::<TokenView, TokenError>(TokenError::AlreadyInitialized),
        s.admin is None ==> (s.initialize(admin, name, symbol) matches Ok(s2) && {
            &&& s2.admin == Some(admin)
            &&& s2.name == Some(name)
            &&& s2.symbol == Some(symbol)
            &&& s2.decimals == Some(7u32)
            &&& s2.total_supply == Some(0i128)
            &&& s2.balances == s.balances
            &&& s2.allowances == s.allowances
        }),
{
    assert(DECIMALS == 7);
}

/// `set_admin` needs a recorded administrator who authorized it, whoever else
/// signed; it then makes `new_admin` the administrator and changes nothing else.
pub proof fn lemma_set_admin_outcome(s: TokenView, new_admin: AccountId, signers: Signers)
    ensures
        s.admin is None ==> s.set_admin(new_admin, signers) == Err::<TokenView, TokenError>(TokenError::NotInitialized),
        forall|a: AccountId| s.admin == Some(a) && !signers.authorizes(a)
            ==> s.set_admin(new_admin, signers) == Err::<TokenView, TokenError>(TokenError::Unauthorized),
        forall|a: AccountId| s.admin == Some(a) && signers.authorizes(a)
            ==> (s.set_admin(new_admin, signers) matches Ok(s2)
                && s2 == (TokenView { admin: Some(new_admin), ..s })),
        s.set_admin(new_admin, signers) matches Ok(s2) ==> s2.admin == Some(new_admin),
{
}

/// `mint` of a positive amount by an authorizing administrator credits `to`,
/// whoever `to` is, and raises the total supply by the same amount; it is
/// refused only for a non-positive amount, a missing or non-signing
/// administrator, or a balance or total that would leave `i128`.
pub proof fn lemma_mint_outcome(s: TokenView, to: AccountId, amount: i128, signers: Signers, admin: AccountId, total: i128)
    ensures
        amount <= 0 ==> s.mint(to, amount, signers) == Err::<TokenView, TokenError>(TokenError::NonPositiveAmount),
        amount > 0 && s.admin is None ==> s.mint(to, amount, signers) == Err::<TokenView, TokenError>(TokenError::NotInitialized),
        amount > 0 && s.admin == Some(admin) && !signers.authorizes(admin)
            ==> s.mint(to, amount, signers) == Err::<TokenView, TokenError>(TokenError::Unauthorized),
        amount > 0 && s.admin == Some(admin) && signers.authorizes(admin) && s.total_supply is None
            ==> s.mint(to, amount, signers) == Err::<TokenView, TokenError>(TokenError::NotInitialized),
        amount > 0 && s.admin == Some(admin) && signers.authorizes(admin) && s.total_supply == Some(total)
            && !(fits_i128(s.balance_of(to) + amount) && fits_i128(total + amount))
            ==> s.mint(to, amount, signers) == Err::<TokenView, TokenError>(TokenError::Overflow),
        amount > 0 && s.admin == Some(admin) && signers.authorizes(admin) && s.total_supply == Some(total)
            && fits_i128(s.balance_of(to) + amount) && fits_i128(total + amount)
            ==> (s.mint(to, amount, signers) matches Ok(s2) && {
                &&& s2.total_supply == Some((total + amount) as i128)
                &&& s2 == (TokenView { balances: s2.balances, total_supply: s2.total_supply, ..s })
                &&& forall|a: AccountId| #[trigger] s2.balance_of(a)
                    == if a == to { s.balance_of(a) + amount } else { s.balance_of(a) as int }
            }),
{
}

/// `burn` of a positive amount by an authorizing administrator debits `from`
/// and lowers the total supply by the same amount; it is refused only for a
/// non-positive amount, a missing or non-signing administrator, a short
/// balance, or a total that would leave `i128`.
pub proof fn lemma_burn_outcome(s: TokenView, from: AccountId, amount: i128, signers: Signers, admin: AccountId, total: i128)
    ensures
        amount <= 0 ==> s.burn(from, amount, signers) == Err::<TokenView, TokenError>(TokenError::NonPositiveAmount),
        amount > 0 && s.admin is None ==> s.burn(from, amount, signers) == Err::<TokenView, TokenError>(TokenError::NotInitialized),
        amount > 0 && s.admin == Some(admin) && !signers.authorizes(admin)
            ==> s.burn(from, amount, signers) == Err::<TokenView, TokenError>(TokenError::Unauthorized),
        amount > 0 && s.admin == Some(admin) && signers.authorizes(admin) && s.total_supply is None
            ==> s.burn(from, amount, signers) == Err::<TokenView, TokenError>(TokenError::NotInitialized),
        amount > 0 && s.admin == Some(admin) && signers.authorizes(admin) && s.total_supply == Some(total)
            && s.balance_of(from) < amount
            ==> s.burn(from, amount, signers) == Err::<TokenView, TokenError>(TokenError::InsufficientBalance),
        amount > 0 && s.admin == Some(admin) && signers.authorizes(admin) && s.total_supply == Some(total)
            && s.balance_of(from) >= amount && !fits_i128(total - amount)
            ==> s.burn(from, amount, signers) == Err::<TokenView, TokenError>(TokenError::Overflow),
        amount > 0 && s.admin == Some(admin) && signers.authorizes(admin) && s.total_supply == Some(total)
            && s.balance_of(from) >= amount && fits_i128(total - amount)
            ==> (s.burn(from, amount, signers) matches Ok(s2) && {
                &&& s2.total_supply == Some((total - amount) as i128)
                &&& s2 == (TokenView { balances: s2.balances, total_supply: s2.total_supply, ..s })
                &&& forall|a: AccountId| #[trigger] s2.balance_of(a)
                    == if a == from { s.balance_of(a) - amount } else { s.balance_of(a) as int }
            }),
{
}

/// `transfer` needs only the sender's authorization, a positive amount the
/// sender's balance covers, and (between two accounts) a receiver balance that
/// stays in `i128`; it then moves the amount and changes nothing else. Who
/// else signed, and who receives, does not matter.
pub proof fn lemma_transfer_outcome(s: TokenView, from: AccountId, to: AccountId, amount: i128, signers: Signers)
    ensures
        amount <= 0 ==> s.transfer(from, to, amount, signers) == Err::<TokenView, TokenError>(TokenError::NonPositiveAmount),
        amount > 0 && !signers.authorizes(from)
            ==> s.transfer(from, to, amount, signers) == Err::<TokenView, TokenError>(TokenError::Unauthorized),
        amount > 0 && signers.authorizes(from) && s.balance_of(from) < amount
            ==> s.transfer(from, to, amount, signers) == Err::<TokenView, TokenError>(TokenError::InsufficientBalance),
        amount > 0 && signers.authorizes(from) && s.balance_of(from) >= amount && from != to
            && !fits_i128(s.balance_of(to) + amount)
            ==> s.transfer(from, to, amount, signers) == Err::<TokenView, TokenError>(TokenError::Overflow),
        amount > 0 && signers.authorizes(from) && s.balance_of(from) >= amount
            && (from == to || fits_i128(s.balance_of(to) + amount))
            ==> (s.transfer(from, to, amount, signers) matches Ok(s2) && {
                &&& only_balances_differ(s, s2)
                &&& balances_moved(s, s2, from, to, amount)
            }),
{
}

/// `transfer_from` needs only the spender's authorization, a positive amount
/// that both the owner's allowance to the spender and the owner's balance
/// cover, and (between two accounts) a receiver balance that stays in `i128`.
/// It then takes the amount off that allowance alone and moves it from `from`
/// to `to`, whoever `to` is, the spender included.
pub proof fn lemma_transfer_from_outcome(
    s: TokenView,
    spender: AccountId,
    from: AccountId,
    to: AccountId,
    amount: i128,
    signers: Signers,
)
    ensures
        amount <= 0 ==> s.transfer_from(spender, from, to, amount, signers)
            == Err::<TokenView, TokenError>(TokenError::NonPositiveAmount),
        amount > 0 && !signers.authorizes(spender) ==> s.transfer_from(spender, from, to, amount, signers)
            == Err::<TokenView, TokenError>(TokenError::Unauthorized),
        amount > 0 && signers.authorizes(spender) && s.allowance_of(from, spender) < amount
            ==> s.transfer_from(spender, from, to, amount, signers)
            == Err::<TokenView, TokenError>(TokenError::InsufficientAllowance),
        amount > 0 && signers.authorizes(spender) && s.allowance_of(from, spender) >= amount
            && s.balance_of(from) < amount ==> s.transfer_from(spender, from, to, amount, signers)
            == Err::<TokenView, TokenError>(TokenError::InsufficientBalance),
        amount > 0 && signers.authorizes(spender) && s.allowance_of(from, spender) >= amount
            && s.balance_of(from) >= amount && from != to && !fits_i128(s.balance_of(to) + amount)
            ==> s.transfer_from(spender, from, to, amount, signers)
            == Err::<TokenView, TokenError>(TokenError::Overflow),
        amount > 0 && signers.authorizes(spender) && s.allowance_of(from, spender) >= amount
            && s.balance_of(from) >= amount && (from == to || fits_i128(s.balance_of(to) + amount))
            ==> (s.transfer_from(spender, from, to, amount, signers) matches Ok(s2) && {
                &&& s2 == (TokenView { balances: s2.balances, allowances: s2.allowances, ..s })
                &&& balances_moved(s, s2, from, to, amount)
                &&& s2.allowance_of(from, spender) == s.allowance_of(from, spender) - amount
                &&& forall|o: AccountId, sp: AccountId| (o, sp) != (from, spender)
                    ==> #[trigger] s2.allowance_of(o, sp) == s.allowance_of(o, sp)
            }),
{
}

/// `approve` of any non-negative amount, zero included, that the owner
/// authorized sets that one allowance to the amount and changes nothing else;
/// it is refused only for a negative amount or a missing authorization.
pub proof fn lemma_approve_outcome(s: TokenView, from: AccountId, spender: AccountId, amount: i128, signers: Signers)
    ensures
        amount < 0 ==> s.approve(from, spender, amount, signers) == Err::<TokenView, TokenError>(TokenError::NegativeAmount),
        amount >= 0 && !signers.authorizes(from)
            ==> s.approve(from, spender, amount, signers) == Err::<TokenView, TokenError>(TokenError::Unauthorized),
        amount >= 0 && signers.authorizes(from) ==> (s.approve(from, spender, amount, signers) matches Ok(s2) && {
            &&& s2 == (TokenView { allowances: s2.allowances, ..s })
            &&& s2.allowance_of(from, spender) == amount
            &&& forall|o: AccountId, sp: AccountId| (o, sp) != (from, spender)
                ==> #[trigger] s2.allowance_of(o, sp) == s.allowance_of(o, sp)
        }),
{
}

} // verus!
