//! Tests of the token registry: symbols, decimals, fees, and ledger ids,
//! with the ledger id bytes checked against candid's principal decoding.

use crypto_tx::Cryptocurrency;

#[test]
fn symbols() {
    assert_eq!(Cryptocurrency::InternetComputer.token_symbol(), "ICP");
    assert_eq!(Cryptocurrency::SNS1.token_symbol(), "SNS1");
    assert_eq!(Cryptocurrency::CKBTC.token_symbol(), "ckBTC");
    assert_eq!(Cryptocurrency::CHAT.token_symbol(), "CHAT");
    assert_eq!(Cryptocurrency::KINIC.token_symbol(), "KINIC");
    assert_eq!(Cryptocurrency::Other("WTN".to_string()).token_symbol(), "WTN");
}

#[test]
fn decimals() {
    assert_eq!(Cryptocurrency::InternetComputer.decimals(), Some(8));
    assert_eq!(Cryptocurrency::SNS1.decimals(), Some(8));
    assert_eq!(Cryptocurrency::CKBTC.decimals(), Some(8));
    assert_eq!(Cryptocurrency::CHAT.decimals(), Some(8));
    assert_eq!(Cryptocurrency::KINIC.decimals(), Some(8));
    assert_eq!(Cryptocurrency::Other("WTN".to_string()).decimals(), None);
}

#[test]
fn fees() {
    assert_eq!(Cryptocurrency::InternetComputer.fee(), Some(10_000));
    assert_eq!(Cryptocurrency::SNS1.fee(), Some(1_000));
    assert_eq!(Cryptocurrency::CKBTC.fee(), Some(10));
    assert_eq!(Cryptocurrency::CHAT.fee(), Some(100_000));
    assert_eq!(Cryptocurrency::KINIC.fee(), Some(100_000));
    assert_eq!(Cryptocurrency::Other("WTN".to_string()).fee(), None);
}

fn assert_ledger_id(token: Cryptocurrency, text: &str) {
    let id = token.ledger_canister_id().expect("supported token has a ledger id");
    let expected = candid::Principal::from_text(text).unwrap();
    assert_eq!(id.bytes.as_slice(), expected.as_slice());
}

#[test]
fn ledger_ids_match_their_textual_principals() {
    assert_ledger_id(Cryptocurrency::InternetComputer, "ryjl3-tyaaa-aaaaa-aaaba-cai");
    assert_ledger_id(Cryptocurrency::SNS1, "zfcdd-tqaaa-aaaaq-aaaga-cai");
    assert_ledger_id(Cryptocurrency::CKBTC, "mxzaz-hqaaa-aaaar-qaada-cai");
    assert_ledger_id(Cryptocurrency::CHAT, "2ouva-viaaa-aaaaq-aaamq-cai");
    assert_ledger_id(Cryptocurrency::KINIC, "73mez-iiaaa-aaaaq-aaasq-cai");
    assert!(Cryptocurrency::Other("WTN".to_string()).ledger_canister_id().is_none());
}

#[test]
fn token_equality() {
    assert_eq!(Cryptocurrency::CHAT, Cryptocurrency::CHAT);
    assert_ne!(Cryptocurrency::CHAT, Cryptocurrency::KINIC);
    assert_eq!(
        Cryptocurrency::Other("WTN".to_string()),
        Cryptocurrency::Other("WTN".to_string())
    );
    assert_ne!(
        Cryptocurrency::Other("WTN".to_string()),
        Cryptocurrency::Other("GLDT".to_string())
    );
    assert_ne!(
        Cryptocurrency::Other("ICP".to_string()),
        Cryptocurrency::InternetComputer
    );
}

#[test]
fn metadata_all_present_except_other() {
    let supported = [
        Cryptocurrency::InternetComputer,
        Cryptocurrency::SNS1,
        Cryptocurrency::CKBTC,
        Cryptocurrency::CHAT,
        Cryptocurrency::KINIC,
    ];
    for token in supported {
        assert!(token.decimals().is_some());
        assert!(token.fee().is_some());
        assert!(token.ledger_canister_id().is_some());
    }
    let other = Cryptocurrency::Other("ABC".to_string());
    assert!(other.decimals().is_none());
    assert!(other.fee().is_none());
    assert!(other.ledger_canister_id().is_none());
    assert_eq!(other.token_symbol(), "ABC");
}
