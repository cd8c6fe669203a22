//! A ledger for water-credit tokens: balances, allowances, minting and
//! burning by an administrator, and transfers, with every rule proved
//! against a mathematical model of the ledger.

pub mod account;
pub mod contracts;
pub mod error;
pub mod laws;
pub mod map_sum;
pub mod outcomes;
pub mod rules;
pub mod token;

pub use account::{AccountId, Signers};
pub use contracts::{CreditFactory, Governance, ProjectRegistry, RetirementRegistry, VerificationOracle};
pub use error::TokenError;
pub use token::{CreditToken, DECIMALS};
