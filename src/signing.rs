use std::str::FromStr;

use solana_sdk::bs58;
use solana_sdk::signature::{ParseSignatureError, Signature};
use solana_sdk::signer::keypair::Keypair;
use solana_sdk::signer::Signer;
use vstd::prelude::*;
use vstd::utf8::encode_utf8;

use crate::base58::{all_base58_chars, base58_of, is_base58_text_of_len};
use crate::keys::{KeyError, PublicKey};

verus! {

/// Longest text that can name 64 bytes.
pub const MAX_SIGNATURE_TEXT_LEN: usize = 88;

/// The ed25519 public key that belongs to a 32-byte secret.
pub uninterp spec fn public_key_of(secret: Seq<u8>) -> Seq<u8>;

/// The ed25519 signature that a 32-byte secret makes over a message.
pub uninterp spec fn signature_of(secret: Seq<u8>, message: Seq<u8>) -> Seq<u8>;

/// Whether a 64-byte signature verifies (strictly) against a public key and a message.
pub uninterp spec fn signature_valid(signature: Seq<u8>, public: Seq<u8>, message: Seq<u8>) -> bool;

/// 64 bytes that hold a secret followed by the public key derived from it.
pub open spec fn is_keypair_bytes(b: Seq<u8>) -> bool {
    b.len() == 64 && b.subrange(32, 64) == public_key_of(b.subrange(0, 32))
}

/// `s` is the base58 text of a key pair's 64 bytes.
pub open spec fn is_keypair_text(s: Seq<char>) -> bool {
    exists|b: Seq<u8>| is_keypair_bytes(b) && #[trigger] base58_of(b) == s
}

/// `s` names a signature.
pub open spec fn is_signature_text(s: Seq<char>) -> bool {
    is_base58_text_of_len(s, 64)
}

/// The error for a signature text that does not parse: a text longer than the
/// longest signature text (in UTF-8 bytes) has the wrong size, one with a
/// character outside the alphabet is invalid, any other has the wrong size.
pub open spec fn signature_parse_error(s: Seq<char>) -> KeyError {
    if encode_utf8(s).len() > MAX_SIGNATURE_TEXT_LEN {
        KeyError::WrongSize
    } else if !all_base58_chars(s) {
        KeyError::Invalid
    } else {
        KeyError::WrongSize
    }
}

/// A signing key pair: a secret and the public key derived from it.
pub struct KeyPair {
    pub(crate) secret: [u8; 32],
    pub(crate) public: [u8; 32],
}

/// Relies on `Keypair::new`: a fresh secret from the system's random source, with
/// its derived public key beside it.
#[verifier::external_body]
fn random_keypair() -> (r: ([u8; 32], [u8; 32]))
    ensures
        r.1@ == public_key_of(r.0@),
{
    let k = Keypair::new();
    (*k.secret_bytes(), k.pubkey().to_bytes())
}

/// Relies on `bs58::decode(..).into_vec()`: it accepts exactly the texts whose
/// characters are all in the alphabet, and returns the one byte string whose
/// canonical text is the input.
#[verifier::external_body]
fn decode_base58(s: &str) -> (r: Option<Vec<u8>>)
    ensures
        r is Some <==> all_base58_chars(s@),
        r matches Some(v) ==> base58_of(v@) == s@,
        r matches Some(v) ==> forall|b: Seq<u8>| #[trigger] base58_of(b) == s@ ==> b == v@,
        r is None ==> forall|b: Seq<u8>| #[trigger] base58_of(b) != s@,
{
    bs58::decode(s).into_vec().ok()
}

/// Relies on `Keypair::try_from(&[u8])`: it accepts exactly 64 bytes whose second
/// half is the public key derived from the first half.
#[verifier::external_body]
fn keypair_from_bytes(b: &[u8]) -> (r: Option<([u8; 32], [u8; 32])>)
    ensures
        r is Some <==> is_keypair_bytes(b@),
        r matches Some(p) ==> p.0@ == b@.subrange(0, 32) && p.1@ == b@.subrange(32, 64),
{
    match Keypair::try_from(b) {
        Ok(k) => Some((*k.secret_bytes(), k.pubkey().to_bytes())),
        Err(_) => None,
    }
}

/// Relies on `Keypair::new_from_array` and `Keypair::to_base58_string`: the
/// canonical base58 text of the secret followed by its derived public key.
#[verifier::external_body]
fn keypair_text(secret: [u8; 32]) -> (r: String)
    ensures
        r@ == base58_of(secret@ + public_key_of(secret@)),
{
    Keypair::new_from_array(secret).to_base58_string()
}

/// Relies on `Keypair::new_from_array` and `Signer::sign_message`: the ed25519
/// signature of the message under the secret.
#[verifier::external_body]
fn sign_bytes(secret: [u8; 32], message: &[u8]) -> (r: [u8; 64])
    ensures
        r@ == signature_of(secret@, message@),
{
    <[u8; 64]>::from(Keypair::new_from_array(secret).sign_message(message))
}

/// Relies on `Signature::verify`: strict ed25519 verification.
#[verifier::external_body]
fn verify_bytes(signature: [u8; 64], public: [u8; 32], message: &[u8]) -> (r: bool)
    ensures
        r == signature_valid(signature@, public@, message@),
{
    Signature::from(signature).verify(&public, message)
}

/// Relies on `Signature::from_str` (five8 `decode_64`): it accepts exactly the
/// canonical base58 text of 64 bytes; a text longer than 88 bytes is `WrongSize`,
/// a byte outside the alphabet (any non-ASCII byte among them) is `Invalid`, any
/// other failure is `WrongSize`.
#[verifier::external_body]
fn decode_signature(s: &str) -> (r: Result<[u8; 64], KeyError>)
    ensures
        r is Ok <==> is_signature_text(s@),
        r matches Ok(b) ==> base58_of(b@) == s@,
        r matches Ok(b) ==> forall|c: Seq<u8>| #[trigger] base58_of(c) == s@ ==> c == b@,
        !all_base58_chars(s@) ==> r is Err,
        r matches Err(e) ==> e == signature_parse_error(s@),
{
    match Signature::from_str(s) {
        Ok(sig) => Ok(<[u8; 64]>::from(sig)),
        Err(ParseSignatureError::WrongSize) => Err(KeyError::WrongSize),
        Err(ParseSignatureError::Invalid) => Err(KeyError::Invalid),
    }
}

/// Relies on `Display for Signature` (five8 `encode_64`): the canonical base58 text.
#[verifier::external_body]
fn encode_signature(signature: [u8; 64]) -> (r: String)
    ensures
        r@ == base58_of(signature@),
{
    Signature::from(signature).to_string()
}

impl KeyPair {
    /// The key pair is whole: its public key is the one derived from its secret.
    pub closed spec fn wf(&self) -> bool {
        self.public@ == public_key_of(self.secret@)
    }

    pub closed spec fn secret_view(&self) -> Seq<u8> {
        self.secret@
    }

    pub closed spec fn public_view(&self) -> Seq<u8> {
        self.public@
    }

    /// A fresh random key pair.
    pub fn generate() -> (r: KeyPair)
        ensures
            r.wf(),
            r.secret_view().len() == 32,
            r.public_view() == public_key_of(r.secret_view()),
    {
        let (secret, public) = random_keypair();
        KeyPair { secret, public }
    }

    /// Reads a key pair from the base58 text of its 64 bytes.
    pub fn from_base58(s: &str) -> (r: Result<KeyPair, KeyError>)
        ensures
            r is Ok <==> is_keypair_text(s@),
            r matches Ok(k) ==> k.wf() && k.secret_view().len() == 32 && k.public_view()
                == public_key_of(k.secret_view()) && base58_of(k.secret_view() + k.public_view())
                == s@,
            r matches Err(e) ==> (e == KeyError::Invalid <==> !all_base58_chars(s@)),
    {
        match decode_base58(s) {
            None => Err(KeyError::Invalid),
            Some(bytes) => {
                match keypair_from_bytes(bytes.as_slice()) {
                    Some((secret, public)) => {
                        proof {
                            assert(secret@ + public@ =~= bytes@);
                        }
                        Ok(KeyPair { secret, public })
                    },
                    None => Err(KeyError::WrongSize),
                }
            },
        }
    }

    /// The base58 text of the key pair's 64 bytes: its secret, then its public key.
    pub fn to_base58(&self) -> (r: String)
        requires
            self.wf(),
        ensures
            r@ == base58_of(self.secret_view() + self.public_view()),
    {
        keypair_text(self.secret)
    }

    /// The public key.
    pub fn public_key(&self) -> (r: PublicKey)
        ensures
            r@ == self.public_view(),
    {
        PublicKey { bytes: self.public }
    }

    /// Signs the bytes of a message.
    pub fn sign(&self, message: &[u8]) -> (r: SignatureBytes)
        ensures
            r@ == signature_of(self.secret_view(), message@),
    {
        SignatureBytes { bytes: sign_bytes(self.secret, message) }
    }
}

/// An ed25519 signature: 64 bytes.
#[derive(Debug, Clone, Copy, PartialEq, Eq)]
pub struct SignatureBytes {
    pub bytes: [u8; 64],
}

impl View for SignatureBytes {
    type V = Seq<u8>;

    open spec fn view(&self) -> Seq<u8> {
        self.bytes@
    }
}

impl SignatureBytes {
    /// Parses the base58 text of a signature.
    pub fn parse(s: &str) -> (r: Result<SignatureBytes, KeyError>)
        ensures
            r is Ok <==> is_signature_text(s@),
            r matches Ok(sig) ==> base58_of(sig@) == s@,
            r matches Ok(sig) ==> forall|c: Seq<u8>| #[trigger] base58_of(c) == s@ ==> c == sig@,
            !all_base58_chars(s@) ==> r is Err,
            r matches Err(e) ==> e == signature_parse_error(s@),
    {
        match decode_signature(s) {
            Ok(bytes) => Ok(SignatureBytes { bytes }),
            Err(e) => Err(e),
        }
    }

    /// The base58 text of the signature.
    pub fn to_base58(&self) -> (r: String)
        ensures
            r@ == base58_of(self@),
    {
        encode_signature(self.bytes)
    }

    /// Whether this signature verifies against the public key and the message bytes.
    pub fn verify(&self, public: &PublicKey, message: &[u8]) -> (r: bool)
        ensures
            r == signature_valid(self@, public@, message@),
    {
        verify_bytes(self.bytes, public.bytes, message)
    }
}

} // verus!
