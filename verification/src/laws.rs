//! Properties of the token that span requests: what every request keeps,
//! what one request undoes, and who must authorize what.

use vstd::prelude::*;
use crate::account::{AccountId, Signers};
use crate::error::TokenError;
use crate::map_sum::{map_sum, lemma_map_sum_insert, lemma_map_sum_empty, lemma_map_sum_non_negative};
use crate::token::TokenView;

verus! {

/// A request to the token, with its arguments.
pub enum Request {
    Initialize { admin: AccountId, name: Seq<char>, symbol: Seq<char> },
    SetAdmin { new_admin: AccountId },
    Mint { to: AccountId, amount: i128 },
    Burn { from: AccountId, amount: i128 },
    Transfer { from: AccountId, to: AccountId, amount: i128 },
    TransferFrom { spender: AccountId, from: AccountId, to: AccountId, amount: i128 },
    Approve { from: AccountId, spender: AccountId, amount: i128 },
}

impl Request {
    /// The account whose authorization `state` demands for this request, if any.
    pub open spec fn required_signer(self, state: TokenView) -> Option<AccountId> {
        match self {
            Request::Initialize { .. } => None,
            Request::SetAdmin { .. } => state.admin,
            Request::Mint { .. } => state.admin,
            Request::Burn { .. } => state.admin,
            Request::Transfer { from, .. } => Some(from),
            Request::TransferFrom { spender, .. } => Some(spender),
            Request::Approve { from, .. } => Some(from),
        }
    }
}

impl TokenView {
    /// The outcome of serving `req` on this state with the given authorizations.
    pub open spec fn apply(self, req: Request, signers: Signers) -> Result<TokenView, TokenError> {
        match req {
            Request::Initialize { admin, name, symbol } => self.initialize(admin, name, symbol),
            Request::SetAdmin { new_admin } => self.set_admin(new_admin, signers),
            Request::Mint { to, amount } => self.mint(to, amount, signers),
            Request::Burn { from, amount } => self.burn(from, amount, signers),
            Request::Transfer { from, to, amount } => self.transfer(from, to, amount, signers),
            Request::TransferFrom { spender, from, to, amount } =>
                self.transfer_from(spender, from, to, amount, signers),
            Request::Approve { from, spender, amount } => self.approve(from, spender, amount, signers),
        }
    }

    /// The state after serving `req`: the new state if it succeeds, this one
    /// if it is refused.
    pub open spec fn serve(self, req: Request, signers: Signers) -> TokenView {
        match self.apply(req, signers) {
            Ok(s2) => s2,
            Err(_) => self,
        }
    }

    /// The state after serving each request of `reqs` in turn, each with its
    /// own authorizations.
    pub open spec fn serve_all(self, reqs: Seq<(Request, Signers)>) -> TokenView
        decreases reqs.len(),
    {
        if reqs.len() == 0 {
            self
        } else {
            self.serve(reqs[0].0, reqs[0].1).serve_all(reqs.drop_first())
        }
    }

    /// No balance and no allowance is negative.
    pub open spec fn amounts_non_negative(self) -> bool {
        &&& forall|a: AccountId| #[trigger] self.balances.contains_key(a) ==> self.balances[a] >= 0
        &&& forall|p: (AccountId, AccountId)| #[trigger] self.allowances.contains_key(p) ==> self.allowances[p] >= 0
    }
}

/// A token whose storage holds nothing has a consistent supply and no
/// negative amounts.
pub proof fn lemma_empty_token_is_consistent()
    ensures
        TokenView::empty().supply_consistent(),
        TokenView::empty().amounts_non_negative(),
{
    lemma_map_sum_empty();
}

/// The balances after a move sum to what they summed to before.
proof fn lemma_move_keeps_sum(s: TokenView, from: AccountId, to: AccountId, amount: i128)
    requires
        s.balances.dom().finite(),
        amount > 0,
        s.moved(from, to, amount) is Ok,
    ensures
        s.moved(from, to, amount)->Ok_0.dom().finite(),
        map_sum(s.moved(from, to, amount)->Ok_0) == map_sum(s.balances),
{
    if from == to {
        return;
    }
    let fb = s.balance_of(from);
    let tb = s.balance_of(to);
    let f = (fb - amount) as i128;
    let t = (tb + amount) as i128;
    let m1 = s.balances.insert(from, f);
    lemma_map_sum_insert(s.balances, from, f);
    lemma_map_sum_insert(m1, to, t);
}

/// Every request keeps the recorded total supply equal to the sum of all
/// balances.
pub proof fn lemma_supply_stays_consistent(s: TokenView, req: Request, signers: Signers)
    requires
        s.supply_consistent(),
    ensures
        s.apply(req, signers) matches Ok(s2) ==> s2.supply_consistent(),
{
    if let Ok(s2) = s.apply(req, signers) {
        match req {
            Request::Mint { to, amount } => {
                lemma_map_sum_insert(s.balances, to, s2.balances[to]);
            },
            Request::Burn { from, amount } => {
                lemma_map_sum_insert(s.balances, from, s2.balances[from]);
            },
            Request::Transfer { from, to, amount } => {
                lemma_move_keeps_sum(s, from, to, amount);
            },
            Request::TransferFrom { spender, from, to, amount } => {
                lemma_move_keeps_sum(s, from, to, amount);
            },
            _ => {},
        }
    }
}

/// Every request keeps all balances and allowances non-negative.
pub proof fn lemma_amounts_stay_non_negative(s: TokenView, req: Request, signers: Signers)
    requires
        s.amounts_non_negative(),
    ensures
        s.apply(req, signers) matches Ok(s2) ==> s2.amounts_non_negative(),
{
}

/// A request that succeeds had the authorization it demands.
pub proof fn lemma_success_needs_authorization(s: TokenView, req: Request, signers: Signers)
    ensures
        s.apply(req, signers) is Ok ==> match req.required_signer(s) {
            Some(a) => signers.authorizes(a),
            None => true,
        },
        s.apply(req, signers) is Ok && (req is Mint || req is Burn || req is SetAdmin) ==> s.admin is Some,
{
}

/// A transfer moves exactly `amount` from the sender to a different receiver,
/// changes no balance when sender and receiver are the same account, and in
/// both cases leaves every other balance, the sum of all balances and the
/// total supply unchanged.
pub proof fn lemma_transfer_conserves(s: TokenView, from: AccountId, to: AccountId, amount: i128, signers: Signers)
    requires
        s.balances.dom().finite(),
    ensures
        s.transfer(from, to, amount, signers) matches Ok(s2) ==> {
            &&& s2.total_supply == s.total_supply
            &&& map_sum(s2.balances) == map_sum(s.balances)
            &&& from != to ==> s2.balance_of(from) == s.balance_of(from) - amount
            &&& from != to ==> s2.balance_of(to) == s.balance_of(to) + amount
            &&& from == to ==> s2.balances == s.balances
            &&& forall|a: AccountId| a != from && a != to ==> #[trigger] s2.balance_of(a) == s.balance_of(a)
        },
{
    if s.transfer(from, to, amount, signers) is Ok {
        lemma_move_keeps_sum(s, from, to, amount);
    }
}

/// A transfer by a spender from an account to itself only spends the
/// allowance: no balance changes.
pub proof fn lemma_transfer_from_to_self_only_spends(s: TokenView, spender: AccountId, owner: AccountId, amount: i128, signers: Signers)
    ensures
        s.transfer_from(spender, owner, owner, amount, signers) matches Ok(s2) ==> {
            &&& s2.balances == s.balances
            &&& s2.total_supply == s.total_supply
            &&& s2.allowance_of(owner, spender) == s.allowance_of(owner, spender) - amount
        },
{
}

/// A transfer by a spender takes exactly the moved amount off the allowance
/// that the owner gave that spender, and touches no other allowance.
pub proof fn lemma_transfer_from_spends_allowance(
    s: TokenView,
    spender: AccountId,
    from: AccountId,
    to: AccountId,
    amount: i128,
    signers: Signers,
)
    ensures
        s.transfer_from(spender, from, to, amount, signers) matches Ok(s2) ==> {
            &&& s2.allowance_of(from, spender) == s.allowance_of(from, spender) - amount
            &&& forall|o: AccountId, sp: AccountId| (o, sp) != (from, spender)
                ==> #[trigger] s2.allowance_of(o, sp) == s.allowance_of(o, sp)
        },
{
}

/// After an approval succeeds, the allowance reads back as the approved amount,
/// whatever it was before.
pub proof fn lemma_allowance_reads_back_approval(
    s: TokenView,
    from: AccountId,
    spender: AccountId,
    amount: i128,
    signers: Signers,
)
    ensures
        s.approve(from, spender, amount, signers) matches Ok(s2) ==> {
            &&& s2.allowance_of(from, spender) == amount
            &&& forall|o: AccountId, sp: AccountId| (o, sp) != (from, spender)
                ==> #[trigger] s2.allowance_of(o, sp) == s.allowance_of(o, sp)
        },
{
}

/// A token initializes once: after `initialize` succeeds, every further
/// `initialize` is refused with `AlreadyInitialized`.
pub proof fn lemma_initialize_once(
    s: TokenView,
    admin: AccountId,
    name: Seq<char>,
    symbol: Seq<char>,
    admin2: AccountId,
    name2: Seq<char>,
    symbol2: Seq<char>,
)
    ensures
        s.initialize(admin, name, symbol) matches Ok(s2) ==> {
            &&& s2.initialize(admin2, name2, symbol2) == Err::<TokenView, TokenError>(TokenError::AlreadyInitialized)
            &&& s2.name == Some(name)
            &&& s2.symbol == Some(symbol)
            &&& s2.decimals == Some(7u32)
            &&& s2.total_supply == Some(0i128)
        },
{
}

/// Burning what was just minted, with the same authorizations, succeeds and
/// gives back every balance and the total supply.
pub proof fn lemma_burn_undoes_mint(s: TokenView, to: AccountId, amount: i128, signers: Signers)
    requires
        s.amounts_non_negative(),
    ensures
        s.mint(to, amount, signers) matches Ok(s2) ==> {
            &&& s2.burn(to, amount, signers) matches Ok(s3)
            &&& s3.total_supply == s.total_supply
            &&& forall|a: AccountId| #[trigger] s3.balance_of(a) == s.balance_of(a)
        },
{
}

/// Sending back what a transfer between two different accounts moved, with
/// the receiver's authorization, succeeds and gives back every balance.
pub proof fn lemma_transfer_back_restores(
    s: TokenView,
    from: AccountId,
    to: AccountId,
    amount: i128,
    signers: Signers,
)
    requires
        s.amounts_non_negative(),
        from != to,
        signers.authorizes(to),
    ensures
        s.transfer(from, to, amount, signers) matches Ok(s2) ==> {
            &&& s2.transfer(to, from, amount, signers) matches Ok(s3)
            &&& s3.total_supply == s.total_supply
            &&& forall|a: AccountId| #[trigger] s3.balance_of(a) == s.balance_of(a)
        },
{
}

/// A request that succeeds on a consistent state with non-negative amounts
/// leaves a consistent state with non-negative amounts.
pub proof fn lemma_request_keeps_invariants(s: TokenView, req: Request, signers: Signers)
    ensures
        s.supply_consistent() ==> (s.apply(req, signers) matches Ok(s2) ==> s2.supply_consistent()),
        s.amounts_non_negative() ==> (s.apply(req, signers) matches Ok(s2) ==> s2.amounts_non_negative()),
{
    if s.supply_consistent() {
        lemma_supply_stays_consistent(s, req, signers);
    }
    if s.amounts_non_negative() {
        lemma_amounts_stay_non_negative(s, req, signers);
    }
}

/// Every request keeps the supply consistent and all amounts non-negative,
/// whether it succeeds or is refused.
proof fn lemma_serve_keeps_invariants(s: TokenView, req: Request, signers: Signers)
    requires
        s.supply_consistent(),
        s.amounts_non_negative(),
    ensures
        s.serve(req, signers).supply_consistent(),
        s.serve(req, signers).amounts_non_negative(),
{
    lemma_supply_stays_consistent(s, req, signers);
    lemma_amounts_stay_non_negative(s, req, signers);
}

/// Any sequence of requests keeps the total supply equal to the sum of all
/// balances, keeps every balance and allowance non-negative, and so keeps the
/// total supply non-negative.
pub proof fn lemma_requests_keep_invariants(s: TokenView, reqs: Seq<(Request, Signers)>)
    requires
        s.supply_consistent(),
        s.amounts_non_negative(),
    ensures
        s.serve_all(reqs).supply_consistent(),
        s.serve_all(reqs).amounts_non_negative(),
        s.serve_all(reqs).total_supply matches Some(t) ==> t >= 0,
    decreases reqs.len(),
{
    if reqs.len() > 0 {
        lemma_serve_keeps_invariants(s, reqs[0].0, reqs[0].1);
        lemma_requests_keep_invariants(s.serve(reqs[0].0, reqs[0].1), reqs.drop_first());
    } else {
        lemma_map_sum_non_negative(s.balances);
    }
}

/// Every token reached from an empty one by any sequence of requests has a
/// total supply equal to the sum of its balances, non-negative balances and
/// allowances, and a non-negative total supply.
pub proof fn lemma_reachable_tokens_are_consistent(reqs: Seq<(Request, Signers)>)
    ensures
        TokenView::empty().serve_all(reqs).supply_consistent(),
        TokenView::empty().serve_all(reqs).amounts_non_negative(),
        TokenView::empty().serve_all(reqs).total_supply matches Some(t) ==> t >= 0,
{
    lemma_empty_token_is_consistent();
    lemma_requests_keep_invariants(TokenView::empty(), reqs);
}

/// Once a token has an administrator, no sequence of requests changes its
/// name, symbol or decimals, or leaves it without an administrator.
pub proof fn lemma_metadata_fixed(s: TokenView, reqs: Seq<(Request, Signers)>)
    requires
        s.admin is Some,
    ensures
        s.serve_all(reqs).name == s.name,
        s.serve_all(reqs).symbol == s.symbol,
        s.serve_all(reqs).decimals == s.decimals,
        s.serve_all(reqs).admin is Some,
    decreases reqs.len(),
{
    if reqs.len() > 0 {
        lemma_metadata_fixed(s.serve(reqs[0].0, reqs[0].1), reqs.drop_first());
    }
}

/// After `initialize(admin, name, symbol)` succeeds, whatever requests follow,
/// the token reads back that name and symbol and 7 decimals.
pub proof fn lemma_initialized_metadata_stays(
    s: TokenView,
    admin: AccountId,
    name: Seq<char>,
    symbol: Seq<char>,
    reqs: Seq<(Request, Signers)>,
)
    ensures
        s.initialize(admin, name, symbol) matches Ok(s2) ==> {
            &&& s2.serve_all(reqs).name == Some(name)
            &&& s2.serve_all(reqs).symbol == Some(symbol)
            &&& s2.serve_all(reqs).decimals == Some(7u32)
        },
{
    if let Ok(s2) = s.initialize(admin, name, symbol) {
        lemma_metadata_fixed(s2, reqs);
    }
}

/// A balance reads back as the amount last written for that account; other
/// accounts read as before, and an account never written reads 0.
pub proof fn lemma_balance_reads_back_write(s: TokenView, account: AccountId, amount: i128, other: AccountId)
    ensures
        (TokenView { balances: s.balances.insert(account, amount), ..s }).balance_of(account) == amount,
        other != account ==> (TokenView { balances: s.balances.insert(account, amount), ..s }).balance_of(other)
            == s.balance_of(other),
        !s.balances.contains_key(other) ==> s.balance_of(other) == 0,
{
}

} // verus!
