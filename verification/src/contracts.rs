//! The companion contracts of the credit system. Each has, so far, only an
//! `initialize` entry point, which records nothing.

use vstd::prelude::*;
use crate::account::AccountId;

verus! {

/// The contract that deploys credit tokens.
pub struct CreditFactory;

impl CreditFactory {
    /// Accepts an administrator and the hash of the token code; records nothing.
    pub fn initialize(_admin: AccountId, _token_wasm_hash: [u8; 32]) {
    }
}

/// The contract that will hold governance decisions.
pub struct Governance;

impl Governance {
    /// Accepts an administrator; records nothing.
    pub fn initialize(_admin: AccountId) {
    }
}

/// The contract that will list water projects.
pub struct ProjectRegistry;

impl ProjectRegistry {
    /// Accepts an administrator; records nothing.
    pub fn initialize(_admin: AccountId) {
    }
}

/// The contract that will record retired credits.
pub struct RetirementRegistry;

impl RetirementRegistry {
    /// Accepts an administrator; records nothing.
    pub fn initialize(_admin: AccountId) {
    }
}

/// The contract that will check water readings.
pub struct VerificationOracle;

impl VerificationOracle {
    /// Accepts an administrator; records nothing.
    pub fn initialize(_admin: AccountId) {
    }
}

} // verus!
