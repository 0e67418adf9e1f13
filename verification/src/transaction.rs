//! The unified transaction facade: a tagged union over lifecycle state
//! (Pending / Completed / Failed), each state itself a tagged union over the
//! originating ledger protocol (NNS / ICRC1), with one protocol-agnostic
//! accessor contract.

use crate::account::account_id_bytes;
use crate::account::default_subaccount_spec;
use crate::account::AccountIdentifier;
use crate::account::Subaccount;
use crate::ids::CanisterId;
use crate::ids::Principal;
use crate::ids::UserId;
use crate::icrc1;
use crate::nns;
use crate::token::Cryptocurrency;
use crate::token::ICP_FEE;
use vstd::prelude::*;

verus! {

pub enum PendingCryptoTransaction {
    NNS(nns::PendingCryptoTransaction),
    ICRC1(icrc1::PendingCryptoTransaction),
}

pub enum CompletedCryptoTransaction {
    NNS(nns::CompletedCryptoTransaction),
    ICRC1(icrc1::CompletedCryptoTransaction),
}

pub enum FailedCryptoTransaction {
    NNS(nns::FailedCryptoTransaction),
    ICRC1(icrc1::FailedCryptoTransaction),
}

pub enum CryptoTransaction {
    Pending(PendingCryptoTransaction),
    Completed(CompletedCryptoTransaction),
    Failed(FailedCryptoTransaction),
}

impl PendingCryptoTransaction {
    pub open spec fn ledger_id_spec(&self) -> Seq<u8> {
        match self {
            PendingCryptoTransaction::NNS(t) => t.ledger@,
            PendingCryptoTransaction::ICRC1(t) => t.ledger@,
        }
    }

    pub open spec fn token_spec(&self) -> Cryptocurrency {
        match self {
            PendingCryptoTransaction::NNS(t) => t.token,
            PendingCryptoTransaction::ICRC1(t) => t.token,
        }
    }

    /// The amount in the token's smallest unit: the one point where the two
    /// protocols' numeric representations meet in a single integer type.
    pub open spec fn units_spec(&self) -> u128 {
        match self {
            PendingCryptoTransaction::NNS(t) => t.amount.e8s as u128,
            PendingCryptoTransaction::ICRC1(t) => t.amount,
        }
    }

    /// The fee this facade reports: a protocol-fixed constant for NNS (any
    /// stored override is not authoritative), the stored value for ICRC1.
    pub open spec fn fee_spec(&self) -> u128 {
        match self {
            PendingCryptoTransaction::NNS(_) => ICP_FEE,
            PendingCryptoTransaction::ICRC1(t) => t.fee,
        }
    }

    /// The user identity derivable from the recipient, if any: the `User`
    /// form of an NNS recipient, or the owner of an ICRC1 account whose
    /// subaccount is absent or the all-zero default.
    pub open spec fn user_id_spec(&self) -> Option<Seq<u8>> {
        match self {
            PendingCryptoTransaction::NNS(t) => match t.to {
                nns::UserOrAccount::User(u) => Some(u@),
                nns::UserOrAccount::Account(_) => None,
            },
            PendingCryptoTransaction::ICRC1(t) => if t.to.effective_subaccount()
                == default_subaccount_spec() {
                Some(t.to.owner@)
            } else {
                None
            },
        }
    }

    /// Whether the stored recipient is equivalent to the given user's
    /// canonical address under this transaction's protocol: for NNS, either
    /// that user's default-subaccount account identifier or a matching `User`
    /// form; for ICRC1, a matching owner (the subaccount is not compared).
    pub open spec fn validates_recipient_spec(&self, recipient: Seq<u8>) -> bool {
        match self {
            PendingCryptoTransaction::NNS(t) => match t.to {
                nns::UserOrAccount::Account(a) => a@ == account_id_bytes(
                    recipient,
                    default_subaccount_spec(),
                ),
                nns::UserOrAccount::User(u) => u@ == recipient,
            },
            PendingCryptoTransaction::ICRC1(t) => t.to.owner@ == recipient,
        }
    }

    /// How `set_recipient` rewrites a record: the recipient of `pre` is
    /// replaced by the address derived from `owner` and `subaccount` under
    /// the record's own protocol, every other field is kept, and the protocol
    /// tag is preserved.
    pub open spec fn recipient_rewritten(
        pre: Self,
        post: Self,
        owner: Seq<u8>,
        subaccount: Seq<u8>,
    ) -> bool {
        match (pre, post) {
            (PendingCryptoTransaction::NNS(t0), PendingCryptoTransaction::NNS(t1)) => {
                &&& (t1.to matches nns::UserOrAccount::Account(a) && a@ == account_id_bytes(
                    owner,
                    subaccount,
                ))
                &&& t1.ledger@ == t0.ledger@
                &&& t1.token == t0.token
                &&& t1.amount == t0.amount
                &&& t1.fee == t0.fee
                &&& t1.memo == t0.memo
                &&& t1.created == t0.created
            },
            (PendingCryptoTransaction::ICRC1(t0), PendingCryptoTransaction::ICRC1(t1)) => {
                &&& t1.to.owner@ == owner
                &&& (t1.to.subaccount matches Some(sub) && sub@ == subaccount)
                &&& t1.ledger@ == t0.ledger@
                &&& t1.token == t0.token
                &&& t1.amount == t0.amount
                &&& t1.fee == t0.fee
                &&& t1.memo == t0.memo
                &&& t1.created == t0.created
            },
            _ => false,
        }
    }

    pub fn ledger_canister_id(&self) -> (r: CanisterId)
        ensures
            r@ == self.ledger_id_spec(),
    {
        match self {
            PendingCryptoTransaction::NNS(t) => t.ledger.clone(),
            PendingCryptoTransaction::ICRC1(t) => t.ledger.clone(),
        }
    }

    pub fn token(&self) -> (r: Cryptocurrency)
        ensures
            r == self.token_spec(),
    {
        match self {
            PendingCryptoTransaction::NNS(t) => t.token.clone(),
            PendingCryptoTransaction::ICRC1(t) => t.token.clone(),
        }
    }

    pub fn is_zero(&self) -> (r: bool)
        ensures
            r == (self.units_spec() == 0),
    {
        self.units() == 0
    }

    pub fn units(&self) -> (r: u128)
        ensures
            r == self.units_spec(),
    {
        match self {
            PendingCryptoTransaction::NNS(t) => t.amount.e8s() as u128,
            PendingCryptoTransaction::ICRC1(t) => t.amount,
        }
    }

    pub fn fee(&self) -> (r: u128)
        ensures
            r == self.fee_spec(),
    {
        match self {
            PendingCryptoTransaction::NNS(_) => ICP_FEE,
            PendingCryptoTransaction::ICRC1(t) => t.fee,
        }
    }

    pub fn user_id(&self) -> (r: Option<UserId>)
        ensures
            (r is Some) == (self.user_id_spec() is Some),
            (r matches Some(u) ==> self.user_id_spec() == Some(u@)),
    {
        match self {
            PendingCryptoTransaction::NNS(t) => match &t.to {
                nns::UserOrAccount::User(u) => Some(u.clone()),
                nns::UserOrAccount::Account(_) => None,
            },
            PendingCryptoTransaction::ICRC1(t) => {
                let is_default: bool = match &t.to.subaccount {
                    None => true,
                    Some(sub) => {
                        let zero = [0u8; 32];
                        proof {
                            assert(zero@ =~= default_subaccount_spec());
                        }
                        crate::account::bytes32_eq(sub, &zero)
                    },
                };
                if is_default {
                    Some(UserId::from_principal(t.to.owner.clone()))
                } else {
                    None
                }
            },
        }
    }

    pub fn validate_recipient(&self, recipient: UserId) -> (r: bool)
        requires
            recipient.wf(),
        ensures
            r == self.validates_recipient_spec(recipient@),
    {
        match self {
            PendingCryptoTransaction::NNS(t) => match &t.to {
                nns::UserOrAccount::Account(a) => {
                    let expected = AccountIdentifier::new(
                        &recipient.principal,
                        &crate::account::default_subaccount(),
                    );
                    a.eq_account(&expected)
                },
                nns::UserOrAccount::User(u) => u.eq_user(&recipient),
            },
            PendingCryptoTransaction::ICRC1(t) => t.to.owner.eq_principal(&recipient.principal),
        }
    }

    pub fn set_recipient(&mut self, owner: Principal, subaccount: Subaccount)
        requires
            owner.wf(),
        ensures
            Self::recipient_rewritten(*old(self), *final(self), owner@, subaccount.0@),
    {
        match self {
            PendingCryptoTransaction::NNS(t) => {
                t.to = nns::UserOrAccount::Account(AccountIdentifier::new(&owner, &subaccount));
            },
            PendingCryptoTransaction::ICRC1(t) => {
                t.to.owner = owner;
                t.to.subaccount = Some(subaccount.0);
            },
        }
    }
}

impl Clone for PendingCryptoTransaction {
    /// A clone behaves as the original under every facade accessor.
    fn clone(&self) -> (r: Self)
        ensures
            (r is NNS) == (self is NNS),
            r.ledger_id_spec() == self.ledger_id_spec(),
            r.token_spec() == self.token_spec(),
            r.units_spec() == self.units_spec(),
            r.fee_spec() == self.fee_spec(),
            r.user_id_spec() == self.user_id_spec(),
            forall|recipient: Seq<u8>| r.validates_recipient_spec(recipient)
                == self.validates_recipient_spec(recipient),
    {
        match self {
            PendingCryptoTransaction::NNS(t) => PendingCryptoTransaction::NNS(t.clone()),
            PendingCryptoTransaction::ICRC1(t) => PendingCryptoTransaction::ICRC1(t.clone()),
        }
    }
}

impl CompletedCryptoTransaction {
    pub open spec fn ledger_id_spec(&self) -> Seq<u8> {
        match self {
            CompletedCryptoTransaction::NNS(t) => t.ledger@,
            CompletedCryptoTransaction::ICRC1(t) => t.ledger@,
        }
    }

    pub open spec fn token_spec(&self) -> Cryptocurrency {
        match self {
            CompletedCryptoTransaction::NNS(t) => t.token,
            CompletedCryptoTransaction::ICRC1(t) => t.token,
        }
    }

    pub open spec fn units_spec(&self) -> u128 {
        match self {
            CompletedCryptoTransaction::NNS(t) => t.amount.e8s as u128,
            CompletedCryptoTransaction::ICRC1(t) => t.amount,
        }
    }

    pub open spec fn fee_spec(&self) -> u128 {
        match self {
            CompletedCryptoTransaction::NNS(_) => ICP_FEE,
            CompletedCryptoTransaction::ICRC1(t) => t.fee,
        }
    }

    pub fn ledger_canister_id(&self) -> (r: CanisterId)
        ensures
            r@ == self.ledger_id_spec(),
    {
        match self {
            CompletedCryptoTransaction::NNS(t) => t.ledger.clone(),
            CompletedCryptoTransaction::ICRC1(t) => t.ledger.clone(),
        }
    }

    pub fn token(&self) -> (r: Cryptocurrency)
        ensures
            r == self.token_spec(),
    {
        match self {
            CompletedCryptoTransaction::NNS(t) => t.token.clone(),
            CompletedCryptoTransaction::ICRC1(t) => t.token.clone(),
        }
    }

    pub fn units(&self) -> (r: u128)
        ensures
            r == self.units_spec(),
    {
        match self {
            CompletedCryptoTransaction::NNS(t) => t.amount.e8s() as u128,
            CompletedCryptoTransaction::ICRC1(t) => t.amount,
        }
    }

    pub fn fee(&self) -> (r: u128)
        ensures
            r == self.fee_spec(),
    {
        match self {
            CompletedCryptoTransaction::NNS(_) => ICP_FEE,
            CompletedCryptoTransaction::ICRC1(t) => t.fee,
        }
    }
}

impl Clone for CompletedCryptoTransaction {
    /// A clone behaves as the original under every facade accessor.
    fn clone(&self) -> (r: Self)
        ensures
            (r is NNS) == (self is NNS),
            r.ledger_id_spec() == self.ledger_id_spec(),
            r.token_spec() == self.token_spec(),
            r.units_spec() == self.units_spec(),
            r.fee_spec() == self.fee_spec(),
    {
        match self {
            CompletedCryptoTransaction::NNS(t) => CompletedCryptoTransaction::NNS(t.clone()),
            CompletedCryptoTransaction::ICRC1(t) => CompletedCryptoTransaction::ICRC1(t.clone()),
        }
    }
}

impl FailedCryptoTransaction {
    pub open spec fn ledger_id_spec(&self) -> Seq<u8> {
        match self {
            FailedCryptoTransaction::NNS(t) => t.ledger@,
            FailedCryptoTransaction::ICRC1(t) => t.ledger@,
        }
    }

    pub open spec fn token_spec(&self) -> Cryptocurrency {
        match self {
            FailedCryptoTransaction::NNS(t) => t.token,
            FailedCryptoTransaction::ICRC1(t) => t.token,
        }
    }

    pub open spec fn error_message_spec(&self) -> Seq<char> {
        match self {
            FailedCryptoTransaction::NNS(t) => t.error_message@,
            FailedCryptoTransaction::ICRC1(t) => t.error_message@,
        }
    }

    pub open spec fn units_spec(&self) -> u128 {
        match self {
            FailedCryptoTransaction::NNS(t) => t.amount.e8s as u128,
            FailedCryptoTransaction::ICRC1(t) => t.amount,
        }
    }

    pub open spec fn fee_spec(&self) -> u128 {
        match self {
            FailedCryptoTransaction::NNS(_) => ICP_FEE,
            FailedCryptoTransaction::ICRC1(t) => t.fee,
        }
    }

    pub fn ledger_canister_id(&self) -> (r: CanisterId)
        ensures
            r@ == self.ledger_id_spec(),
    {
        match self {
            FailedCryptoTransaction::NNS(t) => t.ledger.clone(),
            FailedCryptoTransaction::ICRC1(t) => t.ledger.clone(),
        }
    }

    pub fn token(&self) -> (r: Cryptocurrency)
        ensures
            r == self.token_spec(),
    {
        match self {
            FailedCryptoTransaction::NNS(t) => t.token.clone(),
            FailedCryptoTransaction::ICRC1(t) => t.token.clone(),
        }
    }

    pub fn error_message(&self) -> (r: &str)
        ensures
            r@ == self.error_message_spec(),
    {
        match self {
            FailedCryptoTransaction::NNS(t) => t.error_message.as_str(),
            FailedCryptoTransaction::ICRC1(t) => t.error_message.as_str(),
        }
    }

    pub fn units(&self) -> (r: u128)
        ensures
            r == self.units_spec(),
    {
        match self {
            FailedCryptoTransaction::NNS(t) => t.amount.e8s() as u128,
            FailedCryptoTransaction::ICRC1(t) => t.amount,
        }
    }

    pub fn fee(&self) -> (r: u128)
        ensures
            r == self.fee_spec(),
    {
        match self {
            FailedCryptoTransaction::NNS(_) => ICP_FEE,
            FailedCryptoTransaction::ICRC1(t) => t.fee,
        }
    }
}

impl Clone for FailedCryptoTransaction {
    /// A clone behaves as the original under every facade accessor.
    fn clone(&self) -> (r: Self)
        ensures
            (r is NNS) == (self is NNS),
            r.ledger_id_spec() == self.ledger_id_spec(),
            r.token_spec() == self.token_spec(),
            r.error_message_spec() == self.error_message_spec(),
            r.units_spec() == self.units_spec(),
            r.fee_spec() == self.fee_spec(),
    {
        match self {
            FailedCryptoTransaction::NNS(t) => FailedCryptoTransaction::NNS(t.clone()),
            FailedCryptoTransaction::ICRC1(t) => FailedCryptoTransaction::ICRC1(t.clone()),
        }
    }
}

impl Clone for CryptoTransaction {
    /// A clone keeps the lifecycle state, the protocol tag, and the behavior
    /// of every facade accessor.
    fn clone(&self) -> (r: Self)
        ensures
            (r is Pending) == (self is Pending),
            (r is Completed) == (self is Completed),
            (r is Failed) == (self is Failed),
            r.is_nns() == self.is_nns(),
            r.is_icrc1() == self.is_icrc1(),
            r.ledger_id_spec() == self.ledger_id_spec(),
            r.token_spec() == self.token_spec(),
            r.units_spec() == self.units_spec(),
            r.fee_spec() == self.fee_spec(),
    {
        match self {
            CryptoTransaction::Pending(p) => CryptoTransaction::Pending(p.clone()),
            CryptoTransaction::Completed(c) => CryptoTransaction::Completed(c.clone()),
            CryptoTransaction::Failed(f) => CryptoTransaction::Failed(f.clone()),
        }
    }
}

impl CryptoTransaction {
    pub open spec fn ledger_id_spec(&self) -> Seq<u8> {
        match self {
            CryptoTransaction::Pending(p) => p.ledger_id_spec(),
            CryptoTransaction::Completed(c) => c.ledger_id_spec(),
            CryptoTransaction::Failed(f) => f.ledger_id_spec(),
        }
    }

    pub open spec fn token_spec(&self) -> Cryptocurrency {
        match self {
            CryptoTransaction::Pending(p) => p.token_spec(),
            CryptoTransaction::Completed(c) => c.token_spec(),
            CryptoTransaction::Failed(f) => f.token_spec(),
        }
    }

    pub open spec fn units_spec(&self) -> u128 {
        match self {
            CryptoTransaction::Pending(p) => p.units_spec(),
            CryptoTransaction::Completed(c) => c.units_spec(),
            CryptoTransaction::Failed(f) => f.units_spec(),
        }
    }

    pub open spec fn fee_spec(&self) -> u128 {
        match self {
            CryptoTransaction::Pending(p) => p.fee_spec(),
            CryptoTransaction::Completed(c) => c.fee_spec(),
            CryptoTransaction::Failed(f) => f.fee_spec(),
        }
    }

    /// Whether the wrapped record originated from the NNS ledger protocol.
    pub open spec fn is_nns(&self) -> bool {
        match self {
            CryptoTransaction::Pending(p) => p is NNS,
            CryptoTransaction::Completed(c) => c is NNS,
            CryptoTransaction::Failed(f) => f is NNS,
        }
    }

    /// Whether the wrapped record originated from the ICRC1 ledger protocol.
    pub open spec fn is_icrc1(&self) -> bool {
        match self {
            CryptoTransaction::Pending(p) => p is ICRC1,
            CryptoTransaction::Completed(c) => c is ICRC1,
            CryptoTransaction::Failed(f) => f is ICRC1,
        }
    }

    pub fn ledger_canister_id(&self) -> (r: CanisterId)
        ensures
            r@ == self.ledger_id_spec(),
    {
        match self {
            CryptoTransaction::Pending(p) => p.ledger_canister_id(),
            CryptoTransaction::Completed(c) => c.ledger_canister_id(),
            CryptoTransaction::Failed(f) => f.ledger_canister_id(),
        }
    }


    pub fn token(&self) -> (r: Cryptocurrency)
        ensures
            r == self.token_spec(),
    {
        match self {
            CryptoTransaction::Pending(p) => p.token(),
            CryptoTransaction::Completed(c) => c.token(),
            CryptoTransaction::Failed(f) => f.token(),
        }
    }

    pub fn is_zero(&self) -> (r: bool)
        ensures
            r == (self.units_spec() == 0),
    {
        self.units() == 0
    }

    pub fn units(&self) -> (r: u128)
        ensures
            r == self.units_spec(),
    {
        match self {
            CryptoTransaction::Pending(p) => p.units(),
            CryptoTransaction::Completed(c) => c.units(),
            CryptoTransaction::Failed(f) => f.units(),
        }
    }

    pub fn fee(&self) -> (r: u128)
        ensures
            r == self.fee_spec(),
    {
        match self {
            CryptoTransaction::Pending(p) => p.fee(),
            CryptoTransaction::Completed(c) => c.fee(),
            CryptoTransaction::Failed(f) => f.fee(),
        }
    }
}

} // verus!
