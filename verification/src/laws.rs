//! Properties that hold across the facade's accessors, stated over the same
//! spec functions that the accessors' contracts use.

use crate::account::default_subaccount_spec;
use crate::icrc1;
use crate::ids::UserId;
use crate::token::Cryptocurrency;
use crate::token::ICP_FEE;
use crate::transaction::CompletedCryptoTransaction;
use crate::transaction::CryptoTransaction;
use crate::transaction::FailedCryptoTransaction;
use crate::transaction::PendingCryptoTransaction;
use vstd::prelude::*;

verus! {

/// The unit amount of an NNS-tagged facade equals the stored native amount's
/// count of smallest units, in every lifecycle state and with no precision
/// loss: a record built from `n` smallest units reads back as `n`.
pub proof fn lemma_nns_units_lossless(t: CryptoTransaction)
    ensures
        (t matches CryptoTransaction::Pending(PendingCryptoTransaction::NNS(r)) ==> t.units_spec()
            == r.amount.e8s as u128),
        (t matches CryptoTransaction::Completed(CompletedCryptoTransaction::NNS(r))
            ==> t.units_spec() == r.amount.e8s as u128),
        (t matches CryptoTransaction::Failed(FailedCryptoTransaction::NNS(r)) ==> t.units_spec()
            == r.amount.e8s as u128),
{
}

/// The fee of an NNS-tagged facade is the registry's fixed fee for the
/// chain-native token, in every lifecycle state and regardless of any fee
/// override stored on the record.
pub proof fn lemma_nns_fee_fixed(t: CryptoTransaction)
    requires
        t.is_nns(),
    ensures
        t.fee_spec() == ICP_FEE,
        Cryptocurrency::InternetComputer.fee_spec() == Some(t.fee_spec()),
{
}

/// The fee of an ICRC1-tagged facade is exactly the value stored on the
/// record, independent of the registry's default fee for its token.
pub proof fn lemma_icrc1_fee_stored(t: CryptoTransaction)
    ensures
        (t matches CryptoTransaction::Pending(PendingCryptoTransaction::ICRC1(r))
            ==> t.fee_spec() == r.fee),
        (t matches CryptoTransaction::Completed(CompletedCryptoTransaction::ICRC1(r))
            ==> t.fee_spec() == r.fee),
        (t matches CryptoTransaction::Failed(FailedCryptoTransaction::ICRC1(r)) ==> t.fee_spec()
            == r.fee),
{
}

/// A pending record whose recipient was rewritten to a user's address
/// validates against that user: for an NNS record the rewrite must have used
/// the default subaccount (the reconstructed raw account identifier then
/// matches the user's canonical account); for an ICRC1 record any subaccount
/// will do, since only the owner is compared.
pub proof fn lemma_validate_after_set_recipient(
    pre: PendingCryptoTransaction,
    post: PendingCryptoTransaction,
    u: UserId,
    subaccount: Seq<u8>,
)
    requires
        PendingCryptoTransaction::recipient_rewritten(pre, post, u@, subaccount),
        pre is NNS ==> subaccount == default_subaccount_spec(),
    ensures
        post.validates_recipient_spec(u@),
{
}

/// For an ICRC1 pending record, recipient validation compares the owner
/// principal alone: it succeeds exactly when the owner equals the user's
/// principal, whatever the stored subaccount.
pub proof fn lemma_icrc1_validate_owner_only(t: icrc1::PendingCryptoTransaction, u: UserId)
    ensures
        PendingCryptoTransaction::ICRC1(t).validates_recipient_spec(u@) == (t.to.owner@ == u@),
{
}

/// A user identity is derivable from an ICRC1 recipient exactly when its
/// subaccount is absent or the all-zero default, and the derived identity is
/// the owner principal.
pub proof fn lemma_icrc1_user_id_default_subaccount(t: icrc1::PendingCryptoTransaction)
    ensures
        PendingCryptoTransaction::ICRC1(t).user_id_spec() == (if t.to.effective_subaccount()
            == default_subaccount_spec() {
            Some(t.to.owner@)
        } else {
            None::<Seq<u8>>
        }),
{
}

} // verus!
