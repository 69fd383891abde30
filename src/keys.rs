use std::str::FromStr;

use solana_sdk::pubkey::{ParsePubkeyError, Pubkey};
use vstd::prelude::*;
use vstd::utf8::encode_utf8;

use crate::base58::{all_base58_chars, base58_of, is_base58_text_of_len};

verus! {

/// Longest text that can name a 32-byte key.
pub const MAX_PUBKEY_TEXT_LEN: usize = 44;

/// Why a key text was refused.
#[derive(Debug, Clone, Copy, PartialEq, Eq, Structural)]
pub enum KeyError {
    /// The text does not decode to the expected number of bytes.
    WrongSize,
    /// The text holds a character outside the base58 alphabet.
    Invalid,
}

/// A ledger public key: 32 bytes.
#[derive(Debug, Clone, Copy, PartialEq, Eq)]
pub struct PublicKey {
    pub bytes: [u8; 32],
}

impl View for PublicKey {
    type V = Seq<u8>;

    open spec fn view(&self) -> Seq<u8> {
        self.bytes@
    }
}

/// `s` names a public key.
pub open spec fn is_pubkey_text(s: Seq<char>) -> bool {
    is_base58_text_of_len(s, 32)
}

/// The error for a public-key text that does not parse: a text longer than the
/// longest key text (in UTF-8 bytes) has the wrong size, one with a character
/// outside the alphabet is invalid, any other has the wrong size.
pub open spec fn pubkey_parse_error(s: Seq<char>) -> KeyError {
    if encode_utf8(s).len() > MAX_PUBKEY_TEXT_LEN {
        KeyError::WrongSize
    } else if !all_base58_chars(s) {
        KeyError::Invalid
    } else {
        KeyError::WrongSize
    }
}

/// Relies on `Pubkey::from_str` (five8 `decode_32`): it accepts exactly the canonical
/// base58 text of 32 bytes and returns those bytes; a text longer than 44 bytes is
/// `WrongSize`, a byte outside the alphabet (any non-ASCII byte among them) is
/// `Invalid`, any other failure is `WrongSize`.
#[verifier::external_body]
fn decode_pubkey(s: &str) -> (r: Result<[u8; 32], KeyError>)
    ensures
        r is Ok <==> is_pubkey_text(s@),
        r matches Ok(b) ==> base58_of(b@) == s@,
        r matches Ok(b) ==> forall|c: Seq<u8>| #[trigger] base58_of(c) == s@ ==> c == b@,
        !all_base58_chars(s@) ==> r is Err,
        r matches Err(e) ==> e == pubkey_parse_error(s@),
{
    match Pubkey::from_str(s) {
        Ok(p) => Ok(p.to_bytes()),
        Err(ParsePubkeyError::WrongSize) => Err(KeyError::WrongSize),
        Err(ParsePubkeyError::Invalid) => Err(KeyError::Invalid),
    }
}

/// Relies on `Display for Pubkey` (five8 `encode_32`): the canonical base58 text of the bytes.
#[verifier::external_body]
fn encode_pubkey(bytes: [u8; 32]) -> (r: String)
    ensures
        r@ == base58_of(bytes@),
{
    Pubkey::new_from_array(bytes).to_string()
}

/// What parsing the text `s` of a public key gives: a key exactly when `s` is the
/// text of some 32 bytes, and then the one key whose text is `s`.
pub open spec fn parsed_pubkey(s: Seq<char>, r: Result<PublicKey, KeyError>) -> bool {
    &&& r is Ok <==> is_pubkey_text(s)
    &&& r matches Ok(k) ==> base58_of(k@) == s
    &&& r matches Ok(k) ==> forall|c: Seq<u8>| #[trigger] base58_of(c) == s ==> c == k@
    &&& !all_base58_chars(s) ==> r is Err
    &&& r matches Err(e) ==> e == pubkey_parse_error(s)
}

/// Parses the base58 text of a public key.
pub fn parse_pubkey(s: &str) -> (r: Result<PublicKey, KeyError>)
    ensures
        parsed_pubkey(s@, r),
{
    match decode_pubkey(s) {
        Ok(bytes) => Ok(PublicKey { bytes }),
        Err(e) => Err(e),
    }
}

impl PublicKey {
    /// The base58 text of this key.
    pub fn to_base58(&self) -> (r: String)
        ensures
            r@ == base58_of(self@),
    {
        encode_pubkey(self.bytes)
    }
}

/// A well-formed key text parses, and the key's text is the text it came from;
/// the text of any key parses back to that same key.
pub proof fn lemma_pubkey_text_round_trip(
    s: Seq<char>,
    r: Result<PublicKey, KeyError>,
    k: PublicKey,
    r2: Result<PublicKey, KeyError>,
)
    requires
        parsed_pubkey(s, r),
        parsed_pubkey(base58_of(k@), r2),
    ensures
        is_pubkey_text(s) ==> r is Ok && base58_of(r->Ok_0@) == s,
        r2 is Ok && r2->Ok_0@ == k@,
{
    assert(k@.len() == 32);
    assert(is_pubkey_text(base58_of(k@)));
}

} // verus!
