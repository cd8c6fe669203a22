//! Accounts and the authorizations that come with a request.

use vstd::prelude::*;

verus! {

/// A number that stands for one address: an account or a contract.
/// Two requests name the same address exactly when they carry the same number.
pub type AccountId = u64;

/// The accounts that authorized the request being served.
pub enum Signers {
    /// Every account authorized the request (as in an environment that
    /// grants all authorizations).
    All,
    /// Exactly these accounts authorized the request.
    Only(Vec<AccountId>),
}

impl Signers {
    /// `account` authorized the request.
    pub open spec fn authorizes(&self, account: AccountId) -> bool {
        match self {
            Signers::All => true,
            Signers::Only(accounts) => accounts@.contains(account),
        }
    }

    /// Whether `account` authorized the request.
    pub fn has_signed(&self, account: AccountId) -> (r: bool)
        ensures
            r == self.authorizes(account),
    {
        match self {
            Signers::All => true,
            Signers::Only(accounts) => {
                let mut i: usize = 0;
                while i < accounts.len()
                    invariant
                        0 <= i <= accounts.len(),
                        self.authorizes(account) == accounts@.contains(account),
                        forall|j: int| 0 <= j < i ==> accounts@[j] != account,
                    decreases accounts.len() - i,
                {
                    if accounts[i] == account {
                        assert(accounts@[i as int] == account);
                        return true;
                    }
                    i = i + 1;
                }
                false
            },
        }
    }
}

} // verus!
