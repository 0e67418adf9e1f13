//! The token registry: a closed set of supported currencies plus an open
//! `Other(symbol)` escape, with compiled-in metadata (symbol, decimal places,
//! fixed fee, ledger address) for every supported token.

use crate::ids::CanisterId;
use crate::ids::Principal;
use vstd::prelude::*;

verus! {

/// The fixed transfer fee of the chain-native token, in smallest units.
pub const ICP_FEE: u128 = 10_000;

#[derive(Debug)]
pub enum Cryptocurrency {
    InternetComputer,
    SNS1,
    CKBTC,
    CHAT,
    KINIC,
    Other(String),
}

impl Cryptocurrency {
    pub open spec fn token_symbol_spec(&self) -> Seq<char> {
        match self {
            Cryptocurrency::InternetComputer => "ICP"@,
            Cryptocurrency::SNS1 => "SNS1"@,
            Cryptocurrency::CKBTC => "ckBTC"@,
            Cryptocurrency::CHAT => "CHAT"@,
            Cryptocurrency::KINIC => "KINIC"@,
            Cryptocurrency::Other(symbol) => symbol@,
        }
    }

    pub open spec fn decimals_spec(&self) -> Option<u8> {
        match self {
            Cryptocurrency::Other(_) => None,
            _ => Some(8u8),
        }
    }

    pub open spec fn fee_spec(&self) -> Option<u128> {
        match self {
            Cryptocurrency::InternetComputer => Some(ICP_FEE),
            Cryptocurrency::SNS1 => Some(1_000u128),
            Cryptocurrency::CKBTC => Some(10u128),
            Cryptocurrency::CHAT => Some(100_000u128),
            Cryptocurrency::KINIC => Some(100_000u128),
            Cryptocurrency::Other(_) => None,
        }
    }

    /// The registry's ledger address for each supported token, as the decoded
    /// bytes of the canister's principal.
    pub open spec fn ledger_canister_id_spec(&self) -> Option<Seq<u8>> {
        match self {
            Cryptocurrency::InternetComputer => Some(seq![0u8, 0, 0, 0, 0, 0, 0, 2, 1, 1]),
            Cryptocurrency::SNS1 => Some(seq![0u8, 0, 0, 0, 2, 0, 0, 12, 1, 1]),
            Cryptocurrency::CKBTC => Some(seq![0u8, 0, 0, 0, 2, 48, 0, 6, 1, 1]),
            Cryptocurrency::CHAT => Some(seq![0u8, 0, 0, 0, 2, 0, 0, 25, 1, 1]),
            Cryptocurrency::KINIC => Some(seq![0u8, 0, 0, 0, 2, 0, 0, 37, 1, 1]),
            Cryptocurrency::Other(_) => None,
        }
    }

    pub fn token_symbol(&self) -> (r: &str)
        ensures
            r@ == self.token_symbol_spec(),
    {
        match self {
            Cryptocurrency::InternetComputer => "ICP",
            Cryptocurrency::SNS1 => "SNS1",
            Cryptocurrency::CKBTC => "ckBTC",
            Cryptocurrency::CHAT => "CHAT",
            Cryptocurrency::KINIC => "KINIC",
            Cryptocurrency::Other(symbol) => symbol.as_str(),
        }
    }

    pub fn decimals(&self) -> (r: Option<u8>)
        ensures
            r == self.decimals_spec(),
    {
        match self {
            Cryptocurrency::Other(_) => None,
            _ => Some(8u8),
        }
    }

    pub fn fee(&self) -> (r: Option<u128>)
        ensures
            r == self.fee_spec(),
    {
        match self {
            Cryptocurrency::InternetComputer => Some(ICP_FEE),
            Cryptocurrency::SNS1 => Some(1_000u128),
            Cryptocurrency::CKBTC => Some(10u128),
            Cryptocurrency::CHAT => Some(100_000u128),
            Cryptocurrency::KINIC => Some(100_000u128),
            Cryptocurrency::Other(_) => None,
        }
    }

    pub fn ledger_canister_id(&self) -> (r: Option<CanisterId>)
        ensures
            (match r {
                Some(id) => self.ledger_canister_id_spec() == Some(id@) && id.wf(),
                None => self.ledger_canister_id_spec() is None,
            }),
    {
        match self {
            Cryptocurrency::InternetComputer => Some(ledger_id_from_bytes(&[0u8, 0, 0, 0, 0, 0, 0, 2, 1, 1])),
            Cryptocurrency::SNS1 => Some(ledger_id_from_bytes(&[0u8, 0, 0, 0, 2, 0, 0, 12, 1, 1])),
            Cryptocurrency::CKBTC => Some(ledger_id_from_bytes(&[0u8, 0, 0, 0, 2, 48, 0, 6, 1, 1])),
            Cryptocurrency::CHAT => Some(ledger_id_from_bytes(&[0u8, 0, 0, 0, 2, 0, 0, 25, 1, 1])),
            Cryptocurrency::KINIC => Some(ledger_id_from_bytes(&[0u8, 0, 0, 0, 2, 0, 0, 37, 1, 1])),
            Cryptocurrency::Other(_) => None,
        }
    }

    /// When two tokens are the same currency: the same registry variant, or
    /// `Other` with the same symbol.
    pub open spec fn same_token_spec(&self, other: &Cryptocurrency) -> bool {
        match (self, other) {
            (Cryptocurrency::InternetComputer, Cryptocurrency::InternetComputer) => true,
            (Cryptocurrency::SNS1, Cryptocurrency::SNS1) => true,
            (Cryptocurrency::CKBTC, Cryptocurrency::CKBTC) => true,
            (Cryptocurrency::CHAT, Cryptocurrency::CHAT) => true,
            (Cryptocurrency::KINIC, Cryptocurrency::KINIC) => true,
            (Cryptocurrency::Other(a), Cryptocurrency::Other(b)) => a@ == b@,
            _ => false,
        }
    }
}

impl PartialEq for Cryptocurrency {
    fn eq(&self, other: &Self) -> (r: bool) {
        match (self, other) {
            (Cryptocurrency::InternetComputer, Cryptocurrency::InternetComputer) => true,
            (Cryptocurrency::SNS1, Cryptocurrency::SNS1) => true,
            (Cryptocurrency::CKBTC, Cryptocurrency::CKBTC) => true,
            (Cryptocurrency::CHAT, Cryptocurrency::CHAT) => true,
            (Cryptocurrency::KINIC, Cryptocurrency::KINIC) => true,
            (Cryptocurrency::Other(a), Cryptocurrency::Other(b)) => a.eq(b),
            _ => false,
        }
    }
}

impl vstd::std_specs::cmp::PartialEqSpecImpl for Cryptocurrency {
    open spec fn obeys_eq_spec() -> bool {
        true
    }

    open spec fn eq_spec(&self, other: &Self) -> bool {
        self.same_token_spec(other)
    }
}

impl Clone for Cryptocurrency {
    fn clone(&self) -> (r: Self)
        ensures
            r == *self,
    {
        match self {
            Cryptocurrency::InternetComputer => Cryptocurrency::InternetComputer,
            Cryptocurrency::SNS1 => Cryptocurrency::SNS1,
            Cryptocurrency::CKBTC => Cryptocurrency::CKBTC,
            Cryptocurrency::CHAT => Cryptocurrency::CHAT,
            Cryptocurrency::KINIC => Cryptocurrency::KINIC,
            Cryptocurrency::Other(symbol) => Cryptocurrency::Other(symbol.clone()),
        }
    }
}

fn ledger_id_from_bytes(bytes: &[u8; 10]) -> (p: Principal)
    ensures
        p@ == bytes@,
        p.wf(),
{
    Principal { bytes: vstd::slice::slice_to_vec(bytes.as_slice()) }
}

/// Every supported token other than `Other` carries full registry metadata;
/// an `Other(symbol)` token carries none, and its symbol is the stored name.
pub proof fn lemma_registry_metadata(token: Cryptocurrency)
    ensures
        !(token is Other) ==> token.decimals_spec() is Some && token.fee_spec() is Some
            && token.ledger_canister_id_spec() is Some,
        token matches Cryptocurrency::Other(symbol) ==> token.decimals_spec() is None
            && token.fee_spec() is None && token.ledger_canister_id_spec() is None
            && token.token_symbol_spec() == symbol@,
{
}

} // verus!
