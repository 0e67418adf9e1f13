//! Tests of the unified transaction facade: unit amounts, fees, recipient
//! validation and rewriting, and the two end-to-end scenarios.

use crypto_tx::account::{default_subaccount, AccountIdentifier, Subaccount};
use crypto_tx::ids::{Principal, UserId};
use crypto_tx::nns;
use crypto_tx::icrc1;
use crypto_tx::transaction::{
    CompletedCryptoTransaction, CryptoTransaction, FailedCryptoTransaction,
    PendingCryptoTransaction,
};
use crypto_tx::Cryptocurrency;

fn principal(bytes: &[u8]) -> Principal {
    Principal { bytes: bytes.to_vec() }
}

fn user(bytes: &[u8]) -> UserId {
    UserId { principal: principal(bytes) }
}

fn nns_pending(e8s: u64, to: nns::UserOrAccount, fee: Option<nns::Tokens>) -> nns::PendingCryptoTransaction {
    nns::PendingCryptoTransaction {
        ledger: Cryptocurrency::InternetComputer.ledger_canister_id().unwrap(),
        token: Cryptocurrency::InternetComputer,
        amount: nns::Tokens::from_e8s(e8s),
        to,
        fee,
        memo: Some(nns::Memo(7)),
        created: 1_700_000_000_000_000_000,
    }
}

fn icrc1_pending(amount: u128, fee: u128, to: icrc1::Account) -> icrc1::PendingCryptoTransaction {
    icrc1::PendingCryptoTransaction {
        ledger: Cryptocurrency::CHAT.ledger_canister_id().unwrap(),
        token: Cryptocurrency::CHAT,
        amount,
        to,
        fee,
        memo: None,
        created: 1_700_000_000_000_000_000,
    }
}

#[test]
fn nns_units_round_trip() {
    let n: u64 = 123_456_789;
    let p = PendingCryptoTransaction::NNS(nns_pending(
        n,
        nns::UserOrAccount::User(user(&[9, 9, 9])),
        None,
    ));
    assert_eq!(p.units(), n as u128);
    let tx = CryptoTransaction::Pending(p);
    assert_eq!(tx.units(), n as u128);
    assert!(!tx.is_zero());
}

#[test]
fn units_at_the_extremes() {
    let p = PendingCryptoTransaction::NNS(nns_pending(
        u64::MAX,
        nns::UserOrAccount::User(user(&[1])),
        None,
    ));
    assert_eq!(p.units(), u64::MAX as u128);
    let q = PendingCryptoTransaction::ICRC1(icrc1_pending(
        u128::MAX,
        0,
        icrc1::Account::from_owner(principal(&[1])),
    ));
    assert_eq!(q.units(), u128::MAX);
    let z = PendingCryptoTransaction::NNS(nns_pending(
        0,
        nns::UserOrAccount::User(user(&[1])),
        None,
    ));
    assert!(z.is_zero());
}

#[test]
fn nns_completed_and_failed_units() {
    let n: u64 = 55;
    let completed = CompletedCryptoTransaction::NNS(nns::CompletedCryptoTransaction {
        ledger: principal(&[0, 0, 0, 0, 0, 0, 0, 2, 1, 1]),
        token: Cryptocurrency::InternetComputer,
        amount: nns::Tokens::from_e8s(n),
        fee: nns::Tokens::from_e8s(10_000),
        from: nns::CryptoAccount::Mint,
        to: nns::CryptoAccount::Mint,
        memo: nns::Memo(0),
        created: 0,
        transaction_hash: [0u8; 32],
        block_index: 42,
    });
    assert_eq!(completed.units(), n as u128);
    assert_eq!(CryptoTransaction::Completed(completed).units(), n as u128);
}

#[test]
fn nns_fee_is_fixed_despite_stored_override() {
    let p = PendingCryptoTransaction::NNS(nns_pending(
        1,
        nns::UserOrAccount::User(user(&[9, 9, 9])),
        Some(nns::Tokens::from_e8s(999)),
    ));
    assert_eq!(p.fee(), 10_000);
    let tx = CryptoTransaction::Pending(p);
    assert_eq!(tx.fee(), 10_000);
}

#[test]
fn icrc1_fee_is_the_stored_value() {
    // The registry's default fee for this token is 100_000; the record stores 10.
    let p = PendingCryptoTransaction::ICRC1(icrc1_pending(
        500,
        10,
        icrc1::Account::from_owner(principal(&[1, 2, 3])),
    ));
    assert_eq!(p.fee(), 10);
    assert_eq!(CryptoTransaction::Pending(p).fee(), 10);
}

#[test]
fn nns_validate_recipient_after_set_recipient() {
    let owner_bytes = [1u8, 2, 3, 4];
    let mut p = PendingCryptoTransaction::NNS(nns_pending(
        5,
        nns::UserOrAccount::User(user(&[9, 9, 9])),
        None,
    ));
    p.set_recipient(principal(&owner_bytes), default_subaccount());

    // The recipient is now a raw account identifier, so no user identity is
    // derivable, yet it still validates against the owner it was derived from.
    assert!(p.user_id().is_none());
    assert!(p.validate_recipient(user(&owner_bytes)));
    assert!(!p.validate_recipient(user(&[5, 5])));

    // The stored identifier must be the ledger's own derivation, not a copy
    // of the input bytes.
    let expected = ic_ledger_types::AccountIdentifier::new(
        &candid::Principal::from_slice(&owner_bytes),
        &ic_ledger_types::DEFAULT_SUBACCOUNT,
    );
    match &p {
        PendingCryptoTransaction::NNS(t) => match &t.to {
            nns::UserOrAccount::Account(a) => {
                assert_eq!(a.bytes.as_slice(), expected.as_ref());
            }
            _ => panic!("recipient should be a raw account identifier"),
        },
        _ => panic!("protocol tag must be preserved"),
    }
}

#[test]
fn account_identifier_matches_ledger_derivation() {
    let owner = principal(&[42, 1]);
    let id = AccountIdentifier::new(&owner, &default_subaccount());
    let expected = ic_ledger_types::AccountIdentifier::new(
        &candid::Principal::from_slice(&[42, 1]),
        &ic_ledger_types::DEFAULT_SUBACCOUNT,
    );
    assert_eq!(id.bytes.as_slice(), expected.as_ref());
}

#[test]
fn nns_user_recipient_validates_and_derives() {
    let p = PendingCryptoTransaction::NNS(nns_pending(
        5,
        nns::UserOrAccount::User(user(&[7, 7])),
        None,
    ));
    let derived = p.user_id().expect("a User recipient has an identity");
    assert_eq!(derived.principal.bytes, vec![7, 7]);
    assert!(p.validate_recipient(user(&[7, 7])));
    assert!(!p.validate_recipient(user(&[7, 8])));
}

#[test]
fn icrc1_validate_recipient_is_owner_only() {
    let p = icrc1::Account {
        owner: principal(&[1, 2, 3]),
        subaccount: Some([5u8; 32]),
    };
    let pending = PendingCryptoTransaction::ICRC1(icrc1_pending(500, 10, p));
    // A different owner never validates, whatever the subaccount.
    assert!(!pending.validate_recipient(user(&[4, 5, 6])));
    // The same owner validates even though the subaccount is not the default.
    assert!(pending.validate_recipient(user(&[1, 2, 3])));
}

#[test]
fn icrc1_pending_scenario() {
    let p_owner = [1u8, 2, 3];
    let q_owner = [4u8, 5, 6];
    let mut pending = PendingCryptoTransaction::ICRC1(icrc1_pending(
        500,
        10,
        icrc1::Account::from_owner(principal(&p_owner)),
    ));
    assert!(!CryptoTransaction::Pending(pending.clone()).is_zero());

    let derived = pending.user_id().expect("default subaccount derives an identity");
    assert_eq!(derived.principal.bytes, p_owner.to_vec());

    let mut subaccount_bytes = [0u8; 32];
    subaccount_bytes[0] = 1;
    pending.set_recipient(principal(&q_owner), Subaccount(subaccount_bytes));

    // A non-default subaccount: no identity is derivable any more, but the
    // owner-only comparison still validates the new owner.
    assert!(pending.user_id().is_none());
    assert!(pending.validate_recipient(user(&q_owner)));
    assert!(!pending.validate_recipient(user(&p_owner)));
}

#[test]
fn nns_failed_scenario() {
    let failed = FailedCryptoTransaction::NNS(nns::FailedCryptoTransaction {
        ledger: principal(&[0, 0, 0, 0, 0, 0, 0, 2, 1, 1]),
        token: Cryptocurrency::InternetComputer,
        amount: nns::Tokens::from_e8s(0),
        fee: nns::Tokens::from_e8s(10_000),
        from: nns::CryptoAccount::Account(AccountIdentifier { bytes: [3u8; 32] }),
        to: nns::CryptoAccount::Account(AccountIdentifier { bytes: [4u8; 32] }),
        memo: nns::Memo(0),
        created: 0,
        transaction_hash: [0u8; 32],
        error_message: "insufficient funds".to_string(),
    });
    assert_eq!(failed.error_message(), "insufficient funds");
    assert_eq!(failed.fee(), 10_000);
    assert_eq!(failed.units(), 0);
    let tx = CryptoTransaction::Failed(failed);
    assert!(tx.is_zero());
    assert_eq!(tx.fee(), 10_000);
}

#[test]
fn icrc1_memo_big_endian_encoding() {
    let memo = icrc1::Memo::from_u64(0x0102030405060708);
    assert_eq!(memo.0, vec![1, 2, 3, 4, 5, 6, 7, 8]);
    let memo = icrc1::Memo::from_u64(42);
    assert_eq!(memo.0, 42u64.to_be_bytes().to_vec());
    let memo = icrc1::Memo::from_bytes(vec![9, 8, 7]);
    assert_eq!(memo.into_bytes(), vec![9, 8, 7]);
}

#[test]
fn ledger_and_token_accessors() {
    let p = PendingCryptoTransaction::ICRC1(icrc1_pending(
        1,
        2,
        icrc1::Account::from_owner(principal(&[1])),
    ));
    let ledger = p.ledger_canister_id();
    let expected = candid::Principal::from_text("2ouva-viaaa-aaaaq-aaamq-cai").unwrap();
    assert_eq!(ledger.bytes.as_slice(), expected.as_slice());
    assert_eq!(p.token().token_symbol(), "CHAT");
    let tx = CryptoTransaction::Pending(p);
    assert_eq!(tx.ledger_canister_id().bytes.as_slice(), expected.as_slice());
    assert_eq!(tx.token().token_symbol(), "CHAT");
}
