//! Wallet addresses: a user-supplied string is accepted only when the
//! chain's own decoder parses it, and the parsed 32-byte key is kept
//! beside the original text.

use vstd::prelude::*;

verus! {

/// What the chain's base58 decoder makes of a string: `Some` of the
/// 32 decoded key bytes when the string is a well-formed address,
/// `None` otherwise. The decoding depends on the characters alone.
pub uninterp spec fn parsed_pubkey(s: Seq<char>) -> Option<Seq<u8>>;

/// Relies on `solana_pubkey::Pubkey::from_str` (solana-address's base58
/// decoder): a pure function of the string, returning the 32 decoded
/// bytes on success and an error value on any malformed input.
#[verifier::external_body]
fn parse_pubkey_bytes(s: &str) -> (r: Option<[u8; 32]>)
    ensures
        r is Some <==> parsed_pubkey(s@) is Some,
        r is Some ==> parsed_pubkey(s@) == Some(r->0@),
{
    match <solana_pubkey::Pubkey as core::str::FromStr>::from_str(s) {
        Ok(key) => Some(key.to_bytes()),
        Err(_) => None,
    }
}

/// Whether a string is accepted as an on-chain address.
pub open spec fn address_accepted(s: Seq<char>) -> bool {
    parsed_pubkey(s) is Some
}

/// A validated wallet address: the original text together with the key
/// bytes its parse produced. Only `Wallet::parse` can build one, so a
/// `Wallet` always satisfies `wf()`.
pub struct Wallet {
    text: String,
    key: [u8; 32],
}

impl Wallet {
    /// The address text this wallet was parsed from.
    pub closed spec fn spec_text(self) -> Seq<char> {
        self.text@
    }

    /// The 32 key bytes the parse produced.
    pub closed spec fn spec_key(self) -> Seq<u8> {
        self.key@
    }

    /// The key bytes are exactly what the chain's decoder makes of the text.
    pub closed spec fn wf(self) -> bool {
        parsed_pubkey(self.text@) == Some(self.key@)
    }

    /// Validates a raw address string: succeeds exactly on the strings
    /// the chain's decoder accepts, and never touches the network.
    pub fn parse(text: String) -> (r: Result<Wallet, crate::errors::ApiError>)
        ensures
            r is Ok <==> address_accepted(text@),
            r is Ok ==> r->Ok_0.wf() && r->Ok_0.spec_text() == text@,
            r is Err ==> r->Err_0 == crate::errors::ApiError::InvalidAddress,
    {
        match parse_pubkey_bytes(text.as_str()) {
            Some(key) => Ok(Wallet { text, key }),
            None => Err(crate::errors::ApiError::InvalidAddress),
        }
    }

    /// The address text, for response assembly.
    pub fn text(&self) -> (t: &String)
        ensures
            t@ == self.spec_text(),
    {
        &self.text
    }

    /// The key bytes, for handing to an RPC adapter.
    pub fn key_bytes(&self) -> (k: [u8; 32])
        ensures
            k@ == self.spec_key(),
    {
        self.key
    }
}

} // verus!
