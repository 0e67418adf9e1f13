//! NNS-style transaction records: fixed 8-decimal amounts, opaque 32-byte
//! account identifiers, and a small numeric memo.

use crate::account::AccountIdentifier;
use crate::ids::CanisterId;
use crate::ids::TimestampNanos;
use crate::ids::UserId;
use crate::token::Cryptocurrency;
use crate::TransactionHash;
use vstd::prelude::*;

verus! {

/// A fixed 8-decimal token amount, stored as the number of 10^-8 units.
#[derive(Clone, Copy, PartialEq, Eq, Structural)]
pub struct Tokens {
    pub e8s: u64,
}

impl Tokens {
    pub fn from_e8s(e8s: u64) -> (r: Tokens)
        ensures
            r.e8s == e8s,
    {
        Tokens { e8s }
    }

    pub fn e8s(&self) -> (r: u64)
        ensures
            r == self.e8s,
    {
        self.e8s
    }
}

/// The NNS ledger's memo: a fixed-width numeric tag.
#[derive(Clone, Copy, PartialEq, Eq, Structural)]
pub struct Memo(pub u64);

/// A ledger-assigned block index confirming a committed NNS transfer.
pub type BlockIndex = u64;

/// A token amount together with the token it denominates.
pub struct CryptoAmount {
    pub token: Cryptocurrency,
    pub amount: Tokens,
}

/// An NNS account as it appears on a committed transfer: the minting account
/// or an ordinary account identifier.
pub enum CryptoAccount {
    Mint,
    Account(AccountIdentifier),
}

/// The recipient of a pending NNS transfer: either a known user identity
/// (resolving to that user's default-subaccount account) or a raw account
/// identifier.
pub enum UserOrAccount {
    User(UserId),
    Account(AccountIdentifier),
}

impl CryptoAccount {
    /// When two accounts name the same party: both the minting account, or
    /// the same account identifier.
    pub open spec fn same_account_spec(&self, other: &CryptoAccount) -> bool {
        match (self, other) {
            (CryptoAccount::Mint, CryptoAccount::Mint) => true,
            (CryptoAccount::Account(a), CryptoAccount::Account(b)) => a@ == b@,
            _ => false,
        }
    }
}

impl Clone for CryptoAccount {
    fn clone(&self) -> (r: Self)
        ensures
            r.same_account_spec(self),
    {
        match self {
            CryptoAccount::Mint => CryptoAccount::Mint,
            CryptoAccount::Account(a) => CryptoAccount::Account(*a),
        }
    }
}

impl UserOrAccount {
    /// When two recipients name the same party in the same form.
    pub open spec fn same_recipient_spec(&self, other: &UserOrAccount) -> bool {
        match (self, other) {
            (UserOrAccount::User(a), UserOrAccount::User(b)) => a@ == b@,
            (UserOrAccount::Account(a), UserOrAccount::Account(b)) => a@ == b@,
            _ => false,
        }
    }
}

impl Clone for UserOrAccount {
    fn clone(&self) -> (r: Self)
        ensures
            r.same_recipient_spec(self),
    {
        match self {
            UserOrAccount::User(u) => UserOrAccount::User(u.clone()),
            UserOrAccount::Account(a) => UserOrAccount::Account(*a),
        }
    }
}

pub struct PendingCryptoTransaction {
    pub ledger: CanisterId,
    pub token: Cryptocurrency,
    pub amount: Tokens,
    pub to: UserOrAccount,
    pub fee: Option<Tokens>,
    pub memo: Option<Memo>,
    pub created: TimestampNanos,
}

impl Clone for PendingCryptoTransaction {
    fn clone(&self) -> (r: Self)
        ensures
            r.ledger@ == self.ledger@,
            r.token == self.token,
            r.amount == self.amount,
            r.to.same_recipient_spec(&self.to),
            r.fee == self.fee,
            r.memo == self.memo,
            r.created == self.created,
    {
        PendingCryptoTransaction {
            ledger: self.ledger.clone(),
            token: self.token.clone(),
            amount: self.amount,
            to: self.to.clone(),
            fee: self.fee,
            memo: self.memo,
            created: self.created,
        }
    }
}

pub struct CompletedCryptoTransaction {
    pub ledger: CanisterId,
    pub token: Cryptocurrency,
    pub amount: Tokens,
    pub fee: Tokens,
    pub from: CryptoAccount,
    pub to: CryptoAccount,
    pub memo: Memo,
    pub created: TimestampNanos,
    pub transaction_hash: TransactionHash,
    pub block_index: BlockIndex,
}

pub struct FailedCryptoTransaction {
    pub ledger: CanisterId,
    pub token: Cryptocurrency,
    pub amount: Tokens,
    pub fee: Tokens,
    pub from: CryptoAccount,
    pub to: CryptoAccount,
    pub memo: Memo,
    pub created: TimestampNanos,
    pub transaction_hash: TransactionHash,
    pub error_message: String,
}

impl Clone for CompletedCryptoTransaction {
    fn clone(&self) -> (r: Self)
        ensures
            r.ledger@ == self.ledger@,
            r.token == self.token,
            r.amount == self.amount,
            r.fee == self.fee,
            r.from.same_account_spec(&self.from),
            r.to.same_account_spec(&self.to),
            r.memo == self.memo,
            r.created == self.created,
            r.transaction_hash@ == self.transaction_hash@,
            r.block_index == self.block_index,
    {
        CompletedCryptoTransaction {
            ledger: self.ledger.clone(),
            token: self.token.clone(),
            amount: self.amount,
            fee: self.fee,
            from: self.from.clone(),
            to: self.to.clone(),
            memo: self.memo,
            created: self.created,
            transaction_hash: self.transaction_hash,
            block_index: self.block_index,
        }
    }
}

impl Clone for FailedCryptoTransaction {
    fn clone(&self) -> (r: Self)
        ensures
            r.ledger@ == self.ledger@,
            r.token == self.token,
            r.amount == self.amount,
            r.fee == self.fee,
            r.from.same_account_spec(&self.from),
            r.to.same_account_spec(&self.to),
            r.memo == self.memo,
            r.created == self.created,
            r.transaction_hash@ == self.transaction_hash@,
            r.error_message@ == self.error_message@,
    {
        FailedCryptoTransaction {
            ledger: self.ledger.clone(),
            token: self.token.clone(),
            amount: self.amount,
            fee: self.fee,
            from: self.from.clone(),
            to: self.to.clone(),
            memo: self.memo,
            created: self.created,
            transaction_hash: self.transaction_hash,
            error_message: self.error_message.clone(),
        }
    }
}

} // verus!
