//! A multi-ledger transaction abstraction: one facade over value transfers
//! that may originate from an account-identifier ledger ("NNS") or from a
//! token-account ledger ("ICRC1"), with a static registry of supported tokens.

pub mod account;
pub mod icrc1;
pub mod ids;
pub mod laws;
pub mod nns;
pub mod token;
pub mod transaction;

pub use ids::{CanisterId, Principal, TimestampNanos, UserId};
pub use token::Cryptocurrency;
pub use transaction::{
    CompletedCryptoTransaction, CryptoTransaction, FailedCryptoTransaction,
    PendingCryptoTransaction,
};

use vstd::prelude::*;

verus! {

/// A 32-byte transaction hash as recorded by the NNS ledger.
pub type TransactionHash = [u8; 32];

} // verus!
