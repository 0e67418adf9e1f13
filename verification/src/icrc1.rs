//! ICRC1-style transaction records: owner-principal plus optional-subaccount
//! addressing, 128-bit amounts, and an arbitrary byte-string memo.

use crate::account::default_subaccount_spec;
use crate::ids::CanisterId;
use crate::ids::Principal;
use crate::ids::TimestampNanos;
use crate::token::Cryptocurrency;
use vstd::prelude::*;

verus! {

/// An ICRC1 subaccount: 32 raw bytes. Absence of a subaccount is equivalent
/// to the all-zero default subaccount.
pub type Subaccount = [u8; 32];

/// An ICRC1 account: an owner principal and an optional subaccount.
pub struct Account {
    pub owner: Principal,
    pub subaccount: Option<Subaccount>,
}

impl Account {
    pub open spec fn wf(&self) -> bool {
        self.owner.wf()
    }

    /// The subaccount that the ledger uses for this account: the stored one,
    /// or the all-zero default when none is stored.
    pub open spec fn effective_subaccount(&self) -> Seq<u8> {
        match self.subaccount {
            Some(sub) => sub@,
            None => default_subaccount_spec(),
        }
    }

    pub fn from_owner(owner: Principal) -> (r: Account)
        ensures
            r.owner@ == owner@,
            r.subaccount is None,
    {
        Account { owner, subaccount: None }
    }
}

impl Clone for Account {
    fn clone(&self) -> (r: Self)
        ensures
            r.owner@ == self.owner@,
            r.subaccount == self.subaccount,
            r.wf() == self.wf(),
    {
        Account { owner: self.owner.clone(), subaccount: self.subaccount }
    }
}

/// The big-endian byte encoding of a 64-bit integer.
pub open spec fn u64_be_bytes_spec(n: u64) -> Seq<u8> {
    seq![
        ((n >> 56) & 0xff) as u8,
        ((n >> 48) & 0xff) as u8,
        ((n >> 40) & 0xff) as u8,
        ((n >> 32) & 0xff) as u8,
        ((n >> 24) & 0xff) as u8,
        ((n >> 16) & 0xff) as u8,
        ((n >> 8) & 0xff) as u8,
        (n & 0xff) as u8,
    ]
}

/// An ICRC1 memo: an arbitrary byte string.
pub struct Memo(pub Vec<u8>);

impl View for Memo {
    type V = Seq<u8>;

    open spec fn view(&self) -> Seq<u8> {
        self.0@
    }
}

impl Memo {
    /// Builds a memo from a 64-bit integer, encoded as 8 big-endian bytes.
    pub fn from_u64(n: u64) -> (r: Memo)
        ensures
            r@ == u64_be_bytes_spec(n),
    {
        let mut bytes: Vec<u8> = Vec::new();
        bytes.push(((n >> 56) & 0xff) as u8);
        bytes.push(((n >> 48) & 0xff) as u8);
        bytes.push(((n >> 40) & 0xff) as u8);
        bytes.push(((n >> 32) & 0xff) as u8);
        bytes.push(((n >> 24) & 0xff) as u8);
        bytes.push(((n >> 16) & 0xff) as u8);
        bytes.push(((n >> 8) & 0xff) as u8);
        bytes.push((n & 0xff) as u8);
        proof {
            assert(bytes@ =~= u64_be_bytes_spec(n));
        }
        Memo(bytes)
    }

    /// Builds a memo from raw bytes.
    pub fn from_bytes(bytes: Vec<u8>) -> (r: Memo)
        ensures
            r@ == bytes@,
    {
        Memo(bytes)
    }

    pub fn into_bytes(self) -> (r: Vec<u8>)
        ensures
            r@ == self@,
    {
        self.0
    }
}

impl Clone for Memo {
    fn clone(&self) -> (r: Self)
        ensures
            r@ == self@,
    {
        Memo(vstd::slice::slice_to_vec(self.0.as_slice()))
    }
}

/// Whether two optional memos hold the same bytes.
pub open spec fn same_memo_spec(a: Option<Memo>, b: Option<Memo>) -> bool {
    match (a, b) {
        (Some(x), Some(y)) => x@ == y@,
        (None, None) => true,
        _ => false,
    }
}

fn clone_memo(memo: &Option<Memo>) -> (r: Option<Memo>)
    ensures
        same_memo_spec(r, *memo),
{
    match memo {
        Some(m) => Some(m.clone()),
        None => None,
    }
}

/// An ICRC1 account as it appears on a committed transfer: the minting
/// account or an ordinary token account.
pub enum CryptoAccount {
    Mint,
    Account(Account),
}

impl CryptoAccount {
    /// When two accounts name the same party: both the minting account, or
    /// the same owner and subaccount.
    pub open spec fn same_account_spec(&self, other: &CryptoAccount) -> bool {
        match (self, other) {
            (CryptoAccount::Mint, CryptoAccount::Mint) => true,
            (CryptoAccount::Account(a), CryptoAccount::Account(b)) => a.owner@ == b.owner@
                && a.subaccount == b.subaccount,
            _ => false,
        }
    }
}

impl Clone for CryptoAccount {
    fn clone(&self) -> (r: Self)
        ensures
            r.same_account_spec(self),
    {
        match self {
            CryptoAccount::Mint => CryptoAccount::Mint,
            CryptoAccount::Account(a) => CryptoAccount::Account(a.clone()),
        }
    }
}

pub struct PendingCryptoTransaction {
    pub ledger: CanisterId,
    pub token: Cryptocurrency,
    pub amount: u128,
    pub to: Account,
    pub fee: u128,
    pub memo: Option<Memo>,
    pub created: TimestampNanos,
}

pub struct CompletedCryptoTransaction {
    pub ledger: CanisterId,
    pub token: Cryptocurrency,
    pub amount: u128,
    pub from: CryptoAccount,
    pub to: CryptoAccount,
    pub fee: u128,
    pub memo: Option<Memo>,
    pub created: TimestampNanos,
    pub block_index: u64,
}

pub struct FailedCryptoTransaction {
    pub ledger: CanisterId,
    pub token: Cryptocurrency,
    pub amount: u128,
    pub fee: u128,
    pub from: CryptoAccount,
    pub to: CryptoAccount,
    pub memo: Option<Memo>,
    pub created: TimestampNanos,
    pub error_message: String,
}

impl Clone for PendingCryptoTransaction {
    fn clone(&self) -> (r: Self)
        ensures
            r.ledger@ == self.ledger@,
            r.token == self.token,
            r.amount == self.amount,
            r.to.owner@ == self.to.owner@,
            r.to.subaccount == self.to.subaccount,
            r.fee == self.fee,
            same_memo_spec(r.memo, self.memo),
            r.created == self.created,
    {
        PendingCryptoTransaction {
            ledger: self.ledger.clone(),
            token: self.token.clone(),
            amount: self.amount,
            to: self.to.clone(),
            fee: self.fee,
            memo: clone_memo(&self.memo),
            created: self.created,
        }
    }
}

impl Clone for CompletedCryptoTransaction {
    fn clone(&self) -> (r: Self)
        ensures
            r.ledger@ == self.ledger@,
            r.token == self.token,
            r.amount == self.amount,
            r.from.same_account_spec(&self.from),
            r.to.same_account_spec(&self.to),
            r.fee == self.fee,
            same_memo_spec(r.memo, self.memo),
            r.created == self.created,
            r.block_index == self.block_index,
    {
        CompletedCryptoTransaction {
            ledger: self.ledger.clone(),
            token: self.token.clone(),
            amount: self.amount,
            from: self.from.clone(),
            to: self.to.clone(),
            fee: self.fee,
            memo: clone_memo(&self.memo),
            created: self.created,
            block_index: self.block_index,
        }
    }
}

impl Clone for FailedCryptoTransaction {
    fn clone(&self) -> (r: Self)
        ensures
            r.ledger@ == self.ledger@,
            r.token == self.token,
            r.amount == self.amount,
            r.fee == self.fee,
            r.from.same_account_spec(&self.from),
            r.to.same_account_spec(&self.to),
            same_memo_spec(r.memo, self.memo),
            r.created == self.created,
            r.error_message@ == self.error_message@,
    {
        FailedCryptoTransaction {
            ledger: self.ledger.clone(),
            token: self.token.clone(),
            amount: self.amount,
            fee: self.fee,
            from: self.from.clone(),
            to: self.to.clone(),
            memo: clone_memo(&self.memo),
            created: self.created,
            error_message: self.error_message.clone(),
        }
    }
}

} // verus!
