//! NNS-style addressing: 32-byte opaque account identifiers, derived from an
//! owner principal and a 32-byte subaccount by the ledger's digest.

use crate::ids::Principal;
use vstd::prelude::*;

verus! {

/// A 32-byte subaccount. The all-zero value is the default subaccount.
#[derive(Clone, Copy)]
pub struct Subaccount(pub [u8; 32]);

/// An NNS-style account identifier: a 32-byte digest (checksum plus hash) of
/// an owner principal and a subaccount.
#[derive(Clone, Copy)]
pub struct AccountIdentifier {
    pub bytes: [u8; 32],
}

impl View for AccountIdentifier {
    type V = Seq<u8>;

    open spec fn view(&self) -> Seq<u8> {
        self.bytes@
    }
}

/// The all-zero default subaccount.
pub open spec fn default_subaccount_spec() -> Seq<u8> {
    Seq::new(32, |i: int| 0u8)
}

pub fn default_subaccount() -> (r: Subaccount)
    ensures
        r.0@ == default_subaccount_spec(),
{
    let bytes = [0u8; 32];
    proof {
        assert(bytes@ =~= default_subaccount_spec());
    }
    Subaccount(bytes)
}

/// The bytes of the account identifier that the ledger derives for an owner
/// principal (given by its significant bytes) and a subaccount.
pub uninterp spec fn account_id_bytes(owner: Seq<u8>, subaccount: Seq<u8>) -> Seq<u8>;

/// Relies on ic_ledger_types::AccountIdentifier::new: a 32-byte digest
/// (big-endian CRC32 checksum over a SHA-224 hash) computed from the owner
/// principal's bytes and the subaccount bytes alone.
#[verifier::external_body]
fn derive_account_bytes(owner: &Principal, subaccount: &[u8; 32]) -> (r: [u8; 32])
    requires
        owner.wf(),
    ensures
        r@ == account_id_bytes(owner@, subaccount@),
{
    let p = candid::Principal::from_slice(owner.bytes.as_slice());
    let sub = ic_ledger_types::Subaccount(*subaccount);
    let id = ic_ledger_types::AccountIdentifier::new(&p, &sub);
    let mut out = [0u8; 32];
    out.copy_from_slice(id.as_ref());
    out
}

impl AccountIdentifier {
    /// Derives the account identifier of an owner principal under a subaccount.
    pub fn new(owner: &Principal, subaccount: &Subaccount) -> (r: AccountIdentifier)
        requires
            owner.wf(),
        ensures
            r@ == account_id_bytes(owner@, subaccount.0@),
    {
        AccountIdentifier { bytes: derive_account_bytes(owner, &subaccount.0) }
    }

    pub fn eq_account(&self, other: &AccountIdentifier) -> (r: bool)
        ensures
            r == (self@ == other@),
    {
        bytes32_eq(&self.bytes, &other.bytes)
    }
}

/// Byte-for-byte equality of two 32-byte arrays.
pub fn bytes32_eq(a: &[u8; 32], b: &[u8; 32]) -> (r: bool)
    ensures
        r == (a@ == b@),
{
    let mut i: usize = 0;
    while i < 32
        invariant
            0 <= i <= 32,
            forall|j: int| 0 <= j < i ==> a@[j] == b@[j],
        decreases 32 - i,
    {
        if a[i] != b[i] {
            proof {
                assert(a@ != b@);
            }
            return false;
        }
        i += 1;
    }
    proof {
        assert(a@ =~= b@);
    }
    true
}

} // verus!
