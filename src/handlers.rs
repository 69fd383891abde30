use solana_sdk::pubkey::ParsePubkeyError;
use solana_sdk::signature::ParseSignatureError;
use vstd::prelude::*;
use vstd::string::StringExecFns;
use vstd::utf8::encode_utf8;

use crate::base58::{all_base58_chars, base58_of};
use crate::keys::{is_pubkey_text, parse_pubkey, pubkey_parse_error, KeyError, PublicKey};
use crate::signing::{
    is_keypair_bytes, is_keypair_text, is_signature_text, public_key_of, signature_of,
    signature_parse_error, signature_valid, KeyPair, SignatureBytes,
};

verus! {

/// The status of a response refused for the caller's input.
pub const CLIENT_ERROR: u16 = 400;

/// Body of a request to create a token mint.
pub struct CreateTokenRequest {
    pub mint_authority: String,
    pub decimals: u8,
}

/// Body of a request to mint tokens to a wallet.
#[derive(Debug)]
pub struct TokenTransferRequest {
    pub mint: String,
    pub destination: String,
    pub authority: String,
    pub amount: u64,
}

/// Body of a request to sign a message.
#[derive(Debug)]
pub struct SignRequest {
    pub message: String,
    pub secret: String,
}

/// Body of a request to verify a signature. When `secret` is present it is
/// appended to the message before verification.
#[derive(Debug)]
pub struct VerifyRequest {
    pub message: String,
    pub signature: String,
    pub pubkey: String,
    pub secret: Option<String>,
}

/// A refused request: the response status, the reason, and the text sent back.
#[derive(Debug)]
pub struct ApiError {
    pub status: u16,
    pub reason: KeyError,
    pub message: String,
}

/// The keys of a mint request, parsed.
#[derive(Debug, Clone, Copy)]
pub struct MintTokenKeys {
    pub mint: PublicKey,
    pub destination: PublicKey,
    pub authority: PublicKey,
    pub amount: u64,
}

/// A new key pair, as text.
#[derive(Debug)]
pub struct KeypairResponse {
    pub pubkey: String,
    pub secret: String,
}

/// A signed message, as text.
#[derive(Debug)]
pub struct SignResponse {
    pub signature: String,
    pub public_key: String,
    pub message: String,
}

/// The outcome of a verification.
#[derive(Debug)]
pub struct VerifyResponse {
    pub valid: bool,
    pub message: String,
    pub public_key: String,
    pub used_secret: bool,
}

/// The text that the key parser gives for each error.
pub open spec fn pubkey_error_words(e: KeyError) -> Seq<char> {
    match e {
        KeyError::WrongSize => "String is the wrong size"@,
        KeyError::Invalid => "Invalid Base58 string"@,
    }
}

/// The text that the signature parser gives for each error.
pub open spec fn signature_error_words(e: KeyError) -> Seq<char> {
    match e {
        KeyError::WrongSize => "string decoded to wrong size for signature"@,
        KeyError::Invalid => "failed to decode string to signature"@,
    }
}

/// `e` refuses the caller's input, with `prefix` before the words.
pub open spec fn is_client_error(e: ApiError, prefix: Seq<char>, words: Seq<char>) -> bool {
    e.status == CLIENT_ERROR && e.message@ == prefix + words
}

/// `r` is the outcome of reading the key text `s`, with `prefix` before the
/// words of a refusal.
pub open spec fn key_field_result(
    s: Seq<char>,
    prefix: Seq<char>,
    r: Result<PublicKey, ApiError>,
) -> bool {
    &&& r is Ok <==> is_pubkey_text(s)
    &&& r matches Ok(k) ==> base58_of(k@) == s
    &&& r matches Ok(k) ==> forall|c: Seq<u8>| #[trigger] base58_of(c) == s ==> c == k@
    &&& r matches Err(e) ==> is_client_error(e, prefix, pubkey_error_words(e.reason))
    &&& !all_base58_chars(s) ==> r is Err
    &&& r matches Err(e) ==> e.reason == pubkey_parse_error(s)
}

/// The text that a verification covers: the message, then the secret when one is given.
pub open spec fn verified_text(message: Seq<char>, secret: Option<String>) -> Seq<char> {
    match secret {
        Some(s) => message + s@,
        None => message,
    }
}

/// `r` is the outcome of signing `req.message` with the key pair named by
/// `req.secret`: the signature and the public key of that pair, as text.
pub open spec fn signed_message(req: SignRequest, r: Result<SignResponse, ApiError>) -> bool {
    &&& r is Ok <==> is_keypair_text(req.secret@)
    &&& r matches Ok(resp) ==> resp.message@ == req.message@ && exists|secret: Seq<u8>|
        secret.len() == 32 && public_key_of(secret).len() == 32 && base58_of(
            secret + #[trigger] public_key_of(secret),
        ) == req.secret@ && resp.public_key@ == base58_of(public_key_of(secret))
            && signature_of(secret, encode_utf8(req.message@)).len() == 64 && resp.signature@
            == base58_of(signature_of(secret, encode_utf8(req.message@)))
    &&& r matches Err(e) ==> is_client_error(e, "Invalid secret: "@, pubkey_error_words(e.reason))
    &&& r matches Err(e) ==> (e.reason == KeyError::Invalid <==> !all_base58_chars(req.secret@))
}

/// `r` is the outcome of checking `req.signature` over the message (then the
/// secret, when given) against `req.pubkey`.
pub open spec fn verified_signature(req: VerifyRequest, r: Result<VerifyResponse, ApiError>) -> bool {
    &&& r is Ok <==> is_pubkey_text(req.pubkey@) && is_signature_text(req.signature@)
    &&& r matches Ok(resp) ==> resp.message@ == req.message@ && resp.public_key@ == req.pubkey@
        && resp.used_secret == req.secret is Some
    &&& r matches Ok(resp) ==> forall|public: Seq<u8>, sig: Seq<u8>|
        #[trigger] base58_of(public) == req.pubkey@ && #[trigger] base58_of(sig) == req.signature@
            ==> resp.valid == signature_valid(
            sig,
            public,
            encode_utf8(verified_text(req.message@, req.secret)),
        )
    &&& r matches Err(e) ==> if !is_pubkey_text(req.pubkey@) {
        &&& is_client_error(e, "Invalid public key: "@, pubkey_error_words(e.reason))
        &&& e.reason == pubkey_parse_error(req.pubkey@)
    } else {
        &&& is_client_error(e, "Invalid signature: "@, signature_error_words(e.reason))
        &&& e.reason == signature_parse_error(req.signature@)
    }
}

/// Relies on `Display for ParsePubkeyError`.
#[verifier::external_body]
fn pubkey_error_text(e: KeyError) -> (r: String)
    ensures
        r@ == pubkey_error_words(e),
{
    match e {
        KeyError::WrongSize => ParsePubkeyError::WrongSize.to_string(),
        KeyError::Invalid => ParsePubkeyError::Invalid.to_string(),
    }
}

/// Relies on `Display for ParseSignatureError`.
#[verifier::external_body]
fn signature_error_text(e: KeyError) -> (r: String)
    ensures
        r@ == signature_error_words(e),
{
    match e {
        KeyError::WrongSize => ParseSignatureError::WrongSize.to_string(),
        KeyError::Invalid => ParseSignatureError::Invalid.to_string(),
    }
}

/// A refusal of the caller's input: `prefix` followed by `words`.
fn client_error(prefix: &str, reason: KeyError, words: String) -> (r: ApiError)
    ensures
        r.status == CLIENT_ERROR,
        r.reason == reason,
        r.message@ == prefix@ + words@,
{
    let mut message = prefix.to_owned();
    message.append(words.as_str());
    ApiError { status: CLIENT_ERROR, reason, message }
}

/// Reads a key field; a text that is not a key is refused with `prefix` and the
/// parser's words.
pub fn parse_key_field(s: &str, prefix: &str) -> (r: Result<PublicKey, ApiError>)
    ensures
        key_field_result(s@, prefix@, r),
{
    match parse_pubkey(s) {
        Ok(k) => Ok(k),
        Err(e) => Err(client_error(prefix, e, pubkey_error_text(e))),
    }
}

/// The key named in a balance query.
pub fn balance_request(pubkey: &str) -> (r: Result<PublicKey, ApiError>)
    ensures
        key_field_result(pubkey@, "Invalid public key: "@, r),
{
    parse_key_field(pubkey, "Invalid public key: ")
}

/// The mint authority of a create-token request.
pub fn validate_create_token(req: &CreateTokenRequest) -> (r: Result<PublicKey, ApiError>)
    ensures
        key_field_result(req.mint_authority@, "Invalid mint_authority: "@, r),
{
    parse_key_field(req.mint_authority.as_str(), "Invalid mint_authority: ")
}

/// The keys of a mint request, read in order: mint, destination, authority.
/// The first field that is not a key decides the refusal.
pub fn validate_mint_token(req: &TokenTransferRequest) -> (r: Result<MintTokenKeys, ApiError>)
    ensures
        r is Ok <==> is_pubkey_text(req.mint@) && is_pubkey_text(req.destination@)
            && is_pubkey_text(req.authority@),
        r matches Ok(k) ==> base58_of(k.mint@) == req.mint@ && base58_of(k.destination@)
            == req.destination@ && base58_of(k.authority@) == req.authority@ && k.amount
            == req.amount,
        r matches Err(e) ==> {
            if !is_pubkey_text(req.mint@) {
                &&& is_client_error(e, "Error: "@, pubkey_error_words(e.reason))
                &&& e.reason == pubkey_parse_error(req.mint@)
            } else if !is_pubkey_text(req.destination@) {
                &&& is_client_error(e, "Invalid destination: "@, pubkey_error_words(e.reason))
                &&& e.reason == pubkey_parse_error(req.destination@)
            } else {
                &&& is_client_error(e, "Invalid authority: "@, pubkey_error_words(e.reason))
                &&& e.reason == pubkey_parse_error(req.authority@)
            }
        },
{
    let mint = match parse_key_field(req.mint.as_str(), "Error: ") {
        Ok(k) => k,
        Err(e) => return Err(e),
    };
    let destination = match parse_key_field(req.destination.as_str(), "Invalid destination: ") {
        Ok(k) => k,
        Err(e) => return Err(e),
    };
    let authority = match parse_key_field(req.authority.as_str(), "Invalid authority: ") {
        Ok(k) => k,
        Err(e) => return Err(e),
    };
    Ok(MintTokenKeys { mint, destination, authority, amount: req.amount })
}

/// `r` holds the texts of a key pair: the public key derived from a 32-byte
/// secret, and the secret followed by that public key.
pub open spec fn keypair_texts(r: KeypairResponse) -> bool {
    exists|secret: Seq<u8>|
        secret.len() == 32 && public_key_of(secret).len() == 32 && r.pubkey@ == base58_of(
            #[trigger] public_key_of(secret),
        ) && r.secret@ == base58_of(secret + public_key_of(secret))
}

/// A fresh key pair, as the text of its public key and of its 64 bytes.
pub fn create_keypair() -> (r: KeypairResponse)
    ensures
        keypair_texts(r),
{
    let pair = KeyPair::generate();
    let pubkey = pair.public_key().to_base58();
    let secret = pair.to_base58();
    proof {
        let s = pair.secret_view();
        assert(pair.public_view().len() == 32);
        assert(s.len() == 32 && pubkey@ == base58_of(public_key_of(s)));
    }
    KeypairResponse { pubkey, secret }
}

/// A generated key pair is well formed: its public-key text names a key, its
/// secret text names a key pair, and the public half of that pair is the key
/// that the public-key text names.
pub proof fn lemma_generated_keypair_consistent(r: KeypairResponse)
    requires
        keypair_texts(r),
    ensures
        is_pubkey_text(r.pubkey@),
        is_keypair_text(r.secret@),
        exists|secret: Seq<u8>, public: Seq<u8>|
            #[trigger] base58_of(secret + public) == r.secret@ && #[trigger] base58_of(public)
                == r.pubkey@ && is_keypair_bytes(secret + public),
{
    let secret = choose|secret: Seq<u8>|
        secret.len() == 32 && public_key_of(secret).len() == 32 && r.pubkey@ == base58_of(
            #[trigger] public_key_of(secret),
        ) && r.secret@ == base58_of(secret + public_key_of(secret));
    let public = public_key_of(secret);
    let b = secret + public;
    assert(b.subrange(0, 32) =~= secret);
    assert(b.subrange(32, 64) =~= public);
    assert(is_keypair_bytes(b));
    assert(is_pubkey_text(r.pubkey@));
    assert(is_keypair_text(r.secret@));
}

/// Signs the message's UTF-8 bytes with the key pair whose text is `secret`.
pub fn sign_message(req: &SignRequest) -> (r: Result<SignResponse, ApiError>)
    ensures
        signed_message(*req, r),
{
    let pair = match KeyPair::from_base58(req.secret.as_str()) {
        Ok(p) => p,
        Err(e) => return Err(client_error("Invalid secret: ", e, pubkey_error_text(e))),
    };
    let signature = pair.sign(req.message.as_str().as_bytes());
    let resp = SignResponse {
        signature: signature.to_base58(),
        public_key: pair.public_key().to_base58(),
        message: req.message.clone(),
    };
    proof {
        let s = pair.secret_view();
        assert(pair.public_view().len() == 32);
        assert(signature@.len() == 64);
        assert(base58_of(s + public_key_of(s)) == req.secret@);
    }
    Ok(resp)
}

/// The message that a verification covers: the message, then the secret when one is given.
pub fn message_to_verify(message: &String, secret: &Option<String>) -> (r: String)
    ensures
        r@ == verified_text(message@, *secret),
{
    let mut text = message.clone();
    match secret {
        Some(s) => text.append(s.as_str()),
        None => {},
    }
    text
}

/// Verifies `signature` over the message (and the secret, when given) against `pubkey`.
pub fn verify_signature(req: &VerifyRequest) -> (r: Result<VerifyResponse, ApiError>)
    ensures
        verified_signature(*req, r),
{
    let pubkey = match parse_key_field(req.pubkey.as_str(), "Invalid public key: ") {
        Ok(k) => k,
        Err(e) => return Err(e),
    };
    let signature = match SignatureBytes::parse(req.signature.as_str()) {
        Ok(s) => s,
        Err(e) => return Err(client_error("Invalid signature: ", e, signature_error_text(e))),
    };
    let text = message_to_verify(&req.message, &req.secret);
    let valid = signature.verify(&pubkey, text.as_str().as_bytes());
    let public_key = pubkey.to_base58();
    Ok(VerifyResponse {
        valid,
        message: req.message.clone(),
        public_key,
        used_secret: req.secret.is_some(),
    })
}

/// A text that names no key is refused as the caller's error, so no key comes
/// out of it for a handler to act on.
pub proof fn lemma_malformed_key_refused(s: Seq<char>, prefix: Seq<char>, r: Result<PublicKey, ApiError>)
    requires
        key_field_result(s, prefix, r),
        !is_pubkey_text(s),
    ensures
        r is Err,
        r->Err_0.status == CLIENT_ERROR,
        r->Err_0.message@ == prefix + pubkey_error_words(r->Err_0.reason),
{
}

/// Signing then verifying: when the verifier is handed the signer's message,
/// public key and signature (and no secret), it accepts both texts and checks
/// exactly the signature that the signer's secret makes over that message's
/// bytes against the public key derived from the secret.
pub proof fn lemma_sign_then_verify(
    sreq: SignRequest,
    sr: Result<SignResponse, ApiError>,
    vreq: VerifyRequest,
    vr: Result<VerifyResponse, ApiError>,
)
    requires
        signed_message(sreq, sr),
        verified_signature(vreq, vr),
        sr is Ok,
        vreq.message@ == sreq.message@,
        vreq.pubkey@ == sr->Ok_0.public_key@,
        vreq.signature@ == sr->Ok_0.signature@,
        vreq.secret is None,
    ensures
        vr is Ok,
        exists|secret: Seq<u8>|
            base58_of(secret + #[trigger] public_key_of(secret)) == sreq.secret@ && vr->Ok_0.valid
                == signature_valid(
                signature_of(secret, encode_utf8(sreq.message@)),
                public_key_of(secret),
                encode_utf8(sreq.message@),
            ),
{
    let resp = sr->Ok_0;
    let secret = choose|secret: Seq<u8>|
        secret.len() == 32 && public_key_of(secret).len() == 32 && base58_of(
            secret + #[trigger] public_key_of(secret),
        ) == sreq.secret@ && resp.public_key@ == base58_of(public_key_of(secret))
            && signature_of(secret, encode_utf8(sreq.message@)).len() == 64 && resp.signature@
            == base58_of(signature_of(secret, encode_utf8(sreq.message@)));
    let public = public_key_of(secret);
    let sig = signature_of(secret, encode_utf8(sreq.message@));
    assert(base58_of(public) == vreq.pubkey@);
    assert(base58_of(sig) == vreq.signature@);
    assert(is_pubkey_text(vreq.pubkey@));
    assert(is_signature_text(vreq.signature@));
    assert(verified_text(vreq.message@, vreq.secret) == sreq.message@);
}

} // verus!
