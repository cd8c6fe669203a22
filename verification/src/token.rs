//! The credit token: metadata set once by `initialize`, an administrator who
//! alone may mint and burn, balances, and allowances that let a spender move
//! an owner's credits.

use vstd::prelude::*;
use std::collections::HashMap;
use crate::account::{AccountId, Signers};
use crate::error::TokenError;
use crate::map_sum::map_sum;
use crate::laws::{Request, lemma_request_keeps_invariants, lemma_empty_token_is_consistent};
use crate::rules::{
    spec_mint_balances, spec_burn_balances, spec_move_balances, spec_spend_allowance, spec_debit,
    check_positive, check_non_negative, mint_balances, burn_balances, move_balances,
    spend_allowance, check_uninitialized,
};

verus! {

broadcast use vstd::std_specs::hash::group_hash_axioms;

/// The number of decimals that `initialize` records.
pub const DECIMALS: u32 = 7;

/// What the token holds, as mathematical values. Each field mirrors one kind
/// of stored entry: an entry that was never written is absent.
pub struct TokenView {
    pub admin: Option<AccountId>,
    pub name: Option<Seq<char>>,
    pub symbol: Option<Seq<char>>,
    pub decimals: Option<u32>,
    pub total_supply: Option<i128>,
    /// Written balances; an account without an entry holds 0.
    pub balances: Map<AccountId, i128>,
    /// Written allowances, keyed by (owner, spender); a pair without an entry
    /// has allowance 0.
    pub allowances: Map<(AccountId, AccountId), i128>,
}

impl TokenView {
    /// A token whose storage holds nothing yet.
    pub open spec fn empty() -> TokenView {
        TokenView {
            admin: None,
            name: None,
            symbol: None,
            decimals: None,
            total_supply: None,
            balances: Map::empty(),
            allowances: Map::empty(),
        }
    }

    /// The balance of `account`: its entry, or 0 if none was written.
    pub open spec fn balance_of(self, account: AccountId) -> i128 {
        if self.balances.contains_key(account) { self.balances[account] } else { 0 }
    }

    /// What `spender` may still move out of `owner`'s balance: the entry, or 0.
    pub open spec fn allowance_of(self, owner: AccountId, spender: AccountId) -> i128 {
        if self.allowances.contains_key((owner, spender)) {
            self.allowances[(owner, spender)]
        } else {
            0
        }
    }

    /// Records the administrator, name, symbol, decimals (7) and a total
    /// supply of 0; refused if an administrator is already recorded.
    pub open spec fn initialize(self, admin: AccountId, name: Seq<char>, symbol: Seq<char>) -> Result<TokenView, TokenError> {
        if self.admin is Some {
            Err(TokenError::AlreadyInitialized)
        } else {
            Ok(TokenView {
                admin: Some(admin),
                name: Some(name),
                symbol: Some(symbol),
                decimals: Some(DECIMALS),
                total_supply: Some(0),
                ..self
            })
        }
    }

    /// Replaces the administrator; the current one must have authorized it.
    pub open spec fn set_admin(self, new_admin: AccountId, signers: Signers) -> Result<TokenView, TokenError> {
        match self.admin {
            None => Err(TokenError::NotInitialized),
            Some(admin) => if !signers.authorizes(admin) {
                Err(TokenError::Unauthorized)
            } else {
                Ok(TokenView { admin: Some(new_admin), ..self })
            },
        }
    }

    /// Creates `amount` new credits on `to`'s balance; the administrator must
    /// have authorized it.
    pub open spec fn mint(self, to: AccountId, amount: i128, signers: Signers) -> Result<TokenView, TokenError> {
        if amount <= 0 {
            Err(TokenError::NonPositiveAmount)
        } else {
            match self.admin {
                None => Err(TokenError::NotInitialized),
                Some(admin) => if !signers.authorizes(admin) {
                    Err(TokenError::Unauthorized)
                } else {
                    match self.total_supply {
                        None => Err(TokenError::NotInitialized),
                        Some(total) => match spec_mint_balances(self.balance_of(to), total, amount) {
                            Err(e) => Err(e),
                            Ok((b, t)) => Ok(TokenView {
                                balances: self.balances.insert(to, b),
                                total_supply: Some(t),
                                ..self
                            }),
                        },
                    }
                },
            }
        }
    }

    /// Destroys `amount` credits of `from`'s balance; the administrator must
    /// have authorized it.
    pub open spec fn burn(self, from: AccountId, amount: i128, signers: Signers) -> Result<TokenView, TokenError> {
        if amount <= 0 {
            Err(TokenError::NonPositiveAmount)
        } else {
            match self.admin {
                None => Err(TokenError::NotInitialized),
                Some(admin) => if !signers.authorizes(admin) {
                    Err(TokenError::Unauthorized)
                } else {
                    match self.total_supply {
                        None => Err(TokenError::NotInitialized),
                        Some(total) => match spec_burn_balances(self.balance_of(from), total, amount) {
                            Err(e) => Err(e),
                            Ok((b, t)) => Ok(TokenView {
                                balances: self.balances.insert(from, b),
                                total_supply: Some(t),
                                ..self
                            }),
                        },
                    }
                },
            }
        }
    }

    /// The balances after moving `amount` from `from` to `to`: refused when
    /// `from` holds less than `amount`; a move from an account to itself
    /// changes no balance.
    pub open spec fn moved(self, from: AccountId, to: AccountId, amount: i128) -> Result<Map<AccountId, i128>, TokenError> {
        if from == to {
            match spec_debit(self.balance_of(from), amount) {
                Err(e) => Err(e),
                Ok(_) => Ok(self.balances),
            }
        } else {
            match spec_move_balances(false, self.balance_of(from), self.balance_of(to), amount) {
                Err(e) => Err(e),
                Ok((f, t)) => Ok(self.balances.insert(from, f).insert(to, t)),
            }
        }
    }

    /// Moves `amount` from `from` to `to`; `from` must have authorized it.
    pub open spec fn transfer(self, from: AccountId, to: AccountId, amount: i128, signers: Signers) -> Result<TokenView, TokenError> {
        if amount <= 0 {
            Err(TokenError::NonPositiveAmount)
        } else if !signers.authorizes(from) {
            Err(TokenError::Unauthorized)
        } else {
            match self.moved(from, to, amount) {
                Err(e) => Err(e),
                Ok(balances) => Ok(TokenView { balances, ..self }),
            }
        }
    }

    /// `spender` moves `amount` from `from` to `to` out of the allowance that
    /// `from` gave it; `spender` must have authorized it.
    pub open spec fn transfer_from(self, spender: AccountId, from: AccountId, to: AccountId, amount: i128, signers: Signers) -> Result<TokenView, TokenError> {
        if amount <= 0 {
            Err(TokenError::NonPositiveAmount)
        } else if !signers.authorizes(spender) {
            Err(TokenError::Unauthorized)
        } else {
            match spec_spend_allowance(self.allowance_of(from, spender), amount) {
                Err(e) => Err(e),
                Ok(a) => match self.moved(from, to, amount) {
                    Err(e) => Err(e),
                    Ok(balances) => Ok(TokenView {
                        balances,
                        allowances: self.allowances.insert((from, spender), a),
                        ..self
                    }),
                },
            }
        }
    }

    /// Sets what `spender` may move out of `from`'s balance to `amount`,
    /// replacing any earlier allowance; `from` must have authorized it.
    pub open spec fn approve(self, from: AccountId, spender: AccountId, amount: i128, signers: Signers) -> Result<TokenView, TokenError> {
        if amount < 0 {
            Err(TokenError::NegativeAmount)
        } else if !signers.authorizes(from) {
            Err(TokenError::Unauthorized)
        } else {
            Ok(TokenView { allowances: self.allowances.insert((from, spender), amount), ..self })
        }
    }

    /// The recorded total supply equals the sum of all balances (0 before
    /// initialization), and the token has a total supply exactly when it has
    /// an administrator.
    pub open spec fn supply_consistent(self) -> bool {
        &&& self.balances.dom().finite()
        &&& (self.admin is Some) == (self.total_supply is Some)
        &&& map_sum(self.balances) == match self.total_supply {
            Some(t) => t as int,
            None => 0int,
        }
    }
}

/// The key under which the allowance of (`owner`, `spender`) is stored.
pub open spec fn allowance_key(owner: AccountId, spender: AccountId) -> u128 {
    (owner as int * 0x1_0000_0000_0000_0000int + spender as int) as u128
}

/// Two pairs share a storage key only if they are the same pair.
pub proof fn lemma_allowance_key_injective(a: AccountId, b: AccountId, c: AccountId, d: AccountId)
    requires
        allowance_key(a, b) == allowance_key(c, d),
    ensures
        a == c,
        b == d,
{
    assert(0 <= a as int * 0x1_0000_0000_0000_0000int + b as int <= u128::MAX);
    assert(0 <= c as int * 0x1_0000_0000_0000_0000int + d as int <= u128::MAX);
    if a < c {
        assert(a as int * 0x1_0000_0000_0000_0000int + 0x1_0000_0000_0000_0000int <= c as int * 0x1_0000_0000_0000_0000int);
    } else if c < a {
        assert(c as int * 0x1_0000_0000_0000_0000int + 0x1_0000_0000_0000_0000int <= a as int * 0x1_0000_0000_0000_0000int);
    }
}

/// Allowances keyed by pairs, read from the storage keyed by packed pairs.
/// A pair never written reads as absent.
pub open spec fn allowances_by_pair(m: Map<u128, i128>) -> Map<(AccountId, AccountId), i128> {
    Map::new(
        |p: (AccountId, AccountId)| m.contains_key(allowance_key(p.0, p.1)),
        |p: (AccountId, AccountId)| m[allowance_key(p.0, p.1)],
    )
}

/// Writing the allowance of (`owner`, `spender`) into the packed storage
/// changes exactly that pair: it then reads back as `v`, and every other pair
/// (the reversed pair among them) reads as before.
pub proof fn lemma_allowances_insert(m: Map<u128, i128>, owner: AccountId, spender: AccountId, v: i128)
    ensures
        allowances_by_pair(m.insert(allowance_key(owner, spender), v))
            == allowances_by_pair(m).insert((owner, spender), v),
{
    let k = allowance_key(owner, spender);
    let lhs = allowances_by_pair(m.insert(k, v));
    let rhs = allowances_by_pair(m).insert((owner, spender), v);
    assert forall|p: (AccountId, AccountId)| #[trigger] lhs.contains_key(p) == rhs.contains_key(p) by {
        if allowance_key(p.0, p.1) == k {
            lemma_allowance_key_injective(p.0, p.1, owner, spender);
        }
    }
    assert forall|p: (AccountId, AccountId)| lhs.contains_key(p) implies #[trigger] lhs[p] == rhs[p] by {
        if allowance_key(p.0, p.1) == k {
            lemma_allowance_key_injective(p.0, p.1, owner, spender);
        }
    }
    assert(lhs =~= rhs);
}

fn allowance_key_of(owner: AccountId, spender: AccountId) -> (k: u128)
    ensures
        k == allowance_key(owner, spender),
{
    (owner as u128) * 0x1_0000_0000_0000_0000u128 + (spender as u128)
}

/// The state of one credit token.
pub struct CreditToken {
    admin: Option<AccountId>,
    name: Option<String>,
    symbol: Option<String>,
    decimals: Option<u32>,
    total_supply: Option<i128>,
    balances: HashMap<AccountId, i128>,
    allowances: HashMap<u128, i128>,
}

/// The characters of a stored string, if one was stored.
pub open spec fn string_view(s: Option<String>) -> Option<Seq<char>> {
    match s {
        Some(s) => Some(s@),
        None => None,
    }
}

impl View for CreditToken {
    type V = TokenView;

    closed spec fn view(&self) -> TokenView {
        TokenView {
            admin: self.admin,
            name: string_view(self.name),
            symbol: string_view(self.symbol),
            decimals: self.decimals,
            total_supply: self.total_supply,
            balances: self.balances@,
            allowances: allowances_by_pair(self.allowances@),
        }
    }
}


/// `r` and `after` are what a request whose model outcome is `expected`
/// must leave: on success the new state; on refusal the same error and the
/// state `before`, untouched.
pub open spec fn performs(
    before: TokenView,
    after: TokenView,
    r: Result<(), TokenError>,
    expected: Result<TokenView, TokenError>,
) -> bool {
    match expected {
        Ok(s) => r == Ok::<(), TokenError>(()) && after == s,
        Err(e) => r == Err::<(), TokenError>(e) && after == before,
    }
}

impl CreditToken {
    /// Every token holds finitely many balance entries.
    pub proof fn lemma_balances_finite(token: &CreditToken)
        ensures
            token@.balances.dom().finite(),
    {
    }

    /// A token whose storage holds nothing yet.
    pub fn new() -> (t: CreditToken)
        ensures
            t@ == TokenView::empty(),
            t@.supply_consistent(),
            t@.amounts_non_negative(),
    {
        proof {
            lemma_empty_token_is_consistent();
        }
        let t = CreditToken {
            admin: None,
            name: None,
            symbol: None,
            decimals: None,
            total_supply: None,
            balances: HashMap::new(),
            allowances: HashMap::new(),
        };
        assert(allowances_by_pair(t.allowances@) =~= Map::empty());
        t
    }

    fn read_balance(&self, account: AccountId) -> (b: i128)
        ensures
            b == self@.balance_of(account),
    {
        match self.balances.get(&account) {
            Some(v) => *v,
            None => 0,
        }
    }

    fn read_allowance(&self, owner: AccountId, spender: AccountId) -> (a: i128)
        ensures
            a == self@.allowance_of(owner, spender),
    {
        let k = allowance_key_of(owner, spender);
        match self.allowances.get(&k) {
            Some(v) => *v,
            None => 0,
        }
    }

    fn save_balance(&mut self, account: AccountId, amount: i128)
        ensures
            final(self)@ == (TokenView { balances: old(self)@.balances.insert(account, amount), ..old(self)@ }),
    {
        self.balances.insert(account, amount);
    }

    fn save_allowance(&mut self, owner: AccountId, spender: AccountId, amount: i128)
        ensures
            final(self)@ == (TokenView {
                allowances: old(self)@.allowances.insert((owner, spender), amount),
                ..old(self)@
            }),
    {
        let k = allowance_key_of(owner, spender);
        proof {
            lemma_allowances_insert(self.allowances@, owner, spender, amount);
        }
        self.allowances.insert(k, amount);
    }

    /// Writes the sender's and then the receiver's balance after a move that
    /// the rules accepted.
    fn write_moved(&mut self, from: AccountId, to: AccountId, f: i128, t: i128, amount: i128)
        requires
            amount > 0,
            spec_move_balances(from == to, old(self)@.balance_of(from), old(self)@.balance_of(to), amount)
                == Ok::<(i128, i128), TokenError>((f, t)),
        ensures
            old(self)@.moved(from, to, amount) == Ok::<Map<AccountId, i128>, TokenError>(final(self)@.balances),
            final(self)@ == (TokenView { balances: final(self)@.balances, ..old(self)@ }),
    {
        self.save_balance(from, f);
        self.save_balance(to, t);
        proof {
            if from == to {
                assert(old(self)@.balances.contains_key(from));
                assert(self@.balances =~= old(self)@.balances);
            }
        }
    }

    /// Records the administrator, the name and symbol, 7 decimals and a total
    /// supply of 0. Refused with `AlreadyInitialized` once an administrator is
    /// recorded.
    pub fn initialize(&mut self, admin: AccountId, name: String, symbol: String) -> (r: Result<(), TokenError>)
        ensures
            performs(old(self)@, final(self)@, r, old(self)@.initialize(admin, name@, symbol@)),
            old(self)@.supply_consistent() ==> final(self)@.supply_consistent(),
            old(self)@.amounts_non_negative() ==> final(self)@.amounts_non_negative(),
    {
        proof {
            let req = Request::Initialize { admin, name: name@, symbol: symbol@ };
            lemma_request_keeps_invariants(self@, req, Signers::All);
        }
        check_uninitialized(self.admin.is_some())?;
        self.admin = Some(admin);
        self.name = Some(name);
        self.symbol = Some(symbol);
        self.decimals = Some(DECIMALS);
        self.total_supply = Some(0);
        Ok(())
    }

    /// Replaces the administrator with `new_admin`; the current administrator
    /// must have authorized it.
    pub fn set_admin(&mut self, new_admin: AccountId, signers: &Signers) -> (r: Result<(), TokenError>)
        ensures
            performs(old(self)@, final(self)@, r, old(self)@.set_admin(new_admin, *signers)),
            old(self)@.supply_consistent() ==> final(self)@.supply_consistent(),
            old(self)@.amounts_non_negative() ==> final(self)@.amounts_non_negative(),
    {
        proof {
            lemma_request_keeps_invariants(self@, Request::SetAdmin { new_admin }, *signers);
        }
        let admin = match self.admin {
            Some(a) => a,
            None => { return Err(TokenError::NotInitialized); },
        };
        if !signers.has_signed(admin) {
            return Err(TokenError::Unauthorized);
        }
        self.admin = Some(new_admin);
        Ok(())
    }

    /// Creates `amount` credits on `to`'s balance and adds them to the total
    /// supply; the administrator must have authorized it.
    pub fn mint(&mut self, to: AccountId, amount: i128, signers: &Signers) -> (r: Result<(), TokenError>)
        ensures
            performs(old(self)@, final(self)@, r, old(self)@.mint(to, amount, *signers)),
            old(self)@.supply_consistent() ==> final(self)@.supply_consistent(),
            old(self)@.amounts_non_negative() ==> final(self)@.amounts_non_negative(),
    {
        proof {
            lemma_request_keeps_invariants(self@, Request::Mint { to, amount }, *signers);
        }
        check_positive(amount)?;
        let admin = match self.admin {
            Some(a) => a,
            None => { return Err(TokenError::NotInitialized); },
        };
        if !signers.has_signed(admin) {
            return Err(TokenError::Unauthorized);
        }
        let total = match self.total_supply {
            Some(t) => t,
            None => { return Err(TokenError::NotInitialized); },
        };
        let balance = self.read_balance(to);
        let (b, t) = mint_balances(balance, total, amount)?;
        self.save_balance(to, b);
        self.total_supply = Some(t);
        Ok(())
    }

    /// Destroys `amount` credits of `from`'s balance and takes them from the
    /// total supply; the administrator must have authorized it.
    pub fn burn(&mut self, from: AccountId, amount: i128, signers: &Signers) -> (r: Result<(), TokenError>)
        ensures
            performs(old(self)@, final(self)@, r, old(self)@.burn(from, amount, *signers)),
            old(self)@.supply_consistent() ==> final(self)@.supply_consistent(),
            old(self)@.amounts_non_negative() ==> final(self)@.amounts_non_negative(),
    {
        proof {
            lemma_request_keeps_invariants(self@, Request::Burn { from, amount }, *signers);
        }
        check_positive(amount)?;
        let admin = match self.admin {
            Some(a) => a,
            None => { return Err(TokenError::NotInitialized); },
        };
        if !signers.has_signed(admin) {
            return Err(TokenError::Unauthorized);
        }
        let total = match self.total_supply {
            Some(t) => t,
            None => { return Err(TokenError::NotInitialized); },
        };
        let balance = self.read_balance(from);
        let (b, t) = burn_balances(balance, total, amount)?;
        self.save_balance(from, b);
        self.total_supply = Some(t);
        Ok(())
    }

    /// Moves `amount` from `from` to `to`; `from` must have authorized it.
    /// A transfer from an account to itself needs the balance to cover the
    /// amount and leaves it as it was.
    pub fn transfer(&mut self, from: AccountId, to: AccountId, amount: i128, signers: &Signers) -> (r: Result<(), TokenError>)
        ensures
            performs(old(self)@, final(self)@, r, old(self)@.transfer(from, to, amount, *signers)),
            old(self)@.supply_consistent() ==> final(self)@.supply_consistent(),
            old(self)@.amounts_non_negative() ==> final(self)@.amounts_non_negative(),
    {
        proof {
            lemma_request_keeps_invariants(self@, Request::Transfer { from, to, amount }, *signers);
        }
        check_positive(amount)?;
        if !signers.has_signed(from) {
            return Err(TokenError::Unauthorized);
        }
        let from_balance = self.read_balance(from);
        let to_balance = self.read_balance(to);
        let (f, t) = move_balances(from == to, from_balance, to_balance, amount)?;
        self.write_moved(from, to, f, t, amount);
        Ok(())
    }

    /// `spender` moves `amount` from `from` to `to`, spending that much of the
    /// allowance `from` gave it; `spender` must have authorized it.
    pub fn transfer_from(
        &mut self,
        spender: AccountId,
        from: AccountId,
        to: AccountId,
        amount: i128,
        signers: &Signers,
    ) -> (r: Result<(), TokenError>)
        ensures
            performs(old(self)@, final(self)@, r, old(self)@.transfer_from(spender, from, to, amount, *signers)),
            old(self)@.supply_consistent() ==> final(self)@.supply_consistent(),
            old(self)@.amounts_non_negative() ==> final(self)@.amounts_non_negative(),
    {
        proof {
            lemma_request_keeps_invariants(self@, Request::TransferFrom { spender, from, to, amount }, *signers);
        }
        check_positive(amount)?;
        if !signers.has_signed(spender) {
            return Err(TokenError::Unauthorized);
        }
        let allowance = self.read_allowance(from, spender);
        let a = spend_allowance(allowance, amount)?;
        let from_balance = self.read_balance(from);
        let to_balance = self.read_balance(to);
        let (f, t) = move_balances(from == to, from_balance, to_balance, amount)?;
        self.save_allowance(from, spender, a);
        self.write_moved(from, to, f, t, amount);
        Ok(())
    }

    /// Sets the allowance of `spender` over `from`'s balance to `amount`;
    /// `from` must have authorized it. The expiration ledger is accepted and
    /// not recorded.
    pub fn approve(
        &mut self,
        from: AccountId,
        spender: AccountId,
        amount: i128,
        _expiration_ledger: u32,
        signers: &Signers,
    ) -> (r: Result<(), TokenError>)
        ensures
            performs(old(self)@, final(self)@, r, old(self)@.approve(from, spender, amount, *signers)),
            old(self)@.supply_consistent() ==> final(self)@.supply_consistent(),
            old(self)@.amounts_non_negative() ==> final(self)@.amounts_non_negative(),
    {
        proof {
            lemma_request_keeps_invariants(self@, Request::Approve { from, spender, amount }, *signers);
        }
        check_non_negative(amount)?;
        if !signers.has_signed(from) {
            return Err(TokenError::Unauthorized);
        }
        self.save_allowance(from, spender, amount);
        Ok(())
    }

    /// The balance of `account` (0 if it never held any).
    pub fn balance(&self, account: AccountId) -> (b: i128)
        ensures
            b == self@.balance_of(account),
    {
        self.read_balance(account)
    }

    /// What `spender` may still move out of `from`'s balance.
    pub fn allowance(&self, from: AccountId, spender: AccountId) -> (a: i128)
        ensures
            a == self@.allowance_of(from, spender),
    {
        self.read_allowance(from, spender)
    }

    /// The total supply; refused before initialization.
    pub fn total_supply(&self) -> (r: Result<i128, TokenError>)
        ensures
            r == match self@.total_supply {
                Some(t) => Ok::<i128, TokenError>(t),
                None => Err(TokenError::NotInitialized),
            },
    {
        match self.total_supply {
            Some(t) => Ok(t),
            None => Err(TokenError::NotInitialized),
        }
    }

    /// The token's name; refused before initialization.
    pub fn name(&self) -> (r: Result<String, TokenError>)
        ensures
            match r {
                Ok(s) => self@.name == Some(s@),
                Err(e) => e == TokenError::NotInitialized && self@.name is None,
            },
    {
        match &self.name {
            Some(s) => Ok(s.clone()),
            None => Err(TokenError::NotInitialized),
        }
    }

    /// The token's symbol; refused before initialization.
    pub fn symbol(&self) -> (r: Result<String, TokenError>)
        ensures
            match r {
                Ok(s) => self@.symbol == Some(s@),
                Err(e) => e == TokenError::NotInitialized && self@.symbol is None,
            },
    {
        match &self.symbol {
            Some(s) => Ok(s.clone()),
            None => Err(TokenError::NotInitialized),
        }
    }

    /// The token's decimals; refused before initialization.
    pub fn decimals(&self) -> (r: Result<u32, TokenError>)
        ensures
            r == match self@.decimals {
                Some(d) => Ok::<u32, TokenError>(d),
                None => Err(TokenError::NotInitialized),
            },
    {
        match self.decimals {
            Some(d) => Ok(d),
            None => Err(TokenError::NotInitialized),
        }
    }
}

} // verus!
