use std::str::FromStr;

use solana_sdk::pubkey::Pubkey;
use solana_sdk::signer::keypair::Keypair;
use solana_sdk::signer::Signer;
use token_api::handlers::{
    balance_request, create_keypair, message_to_verify, parse_key_field, sign_message,
    validate_create_token, validate_mint_token, verify_signature, CreateTokenRequest,
    SignRequest, TokenTransferRequest, VerifyRequest, CLIENT_ERROR,
};
use token_api::instructions::{create_token_instructions, mint_account_len, mint_token_instructions};
use token_api::keys::{parse_pubkey, KeyError, PublicKey};
use token_api::signing::{KeyPair, SignatureBytes};
use token_api::transaction::{create_token_transaction, mint_token_transaction};

const TOKEN_PROGRAM: &str = "TokenkegQfeZyiNwAJbNbGKPFXCWuBvf9Ss623VQ5DA";
const TOKEN_PROGRAM_BYTES: [u8; 32] = [
    6, 221, 246, 225, 215, 101, 161, 147, 217, 203, 225, 70, 206, 235, 121, 172, 28, 180, 133,
    237, 95, 91, 55, 145, 58, 140, 245, 133, 126, 255, 0, 169,
];

fn key(n: u8) -> PublicKey {
    PublicKey { bytes: [n; 32] }
}

fn sign_req(message: &str, secret: &str) -> SignRequest {
    SignRequest { message: message.to_string(), secret: secret.to_string() }
}

#[test]
fn pubkey_text_round_trips() {
    let k = parse_pubkey(TOKEN_PROGRAM).unwrap();
    assert_eq!(k.bytes, TOKEN_PROGRAM_BYTES);
    assert_eq!(k.to_base58(), TOKEN_PROGRAM);
    let zero = parse_pubkey("11111111111111111111111111111111").unwrap();
    assert_eq!(zero.bytes, [0u8; 32]);
    assert_eq!(zero.to_base58(), "11111111111111111111111111111111");
}

#[test]
fn any_key_text_parses_back_to_the_key() {
    for n in [0u8, 1, 7, 128, 255] {
        let k = key(n);
        let text = k.to_base58();
        assert_eq!(parse_pubkey(&text).unwrap(), k);
    }
}

#[test]
fn malformed_pubkeys_are_refused() {
    assert_eq!(parse_pubkey("not-a-real-pubkey"), Err(KeyError::Invalid));
    assert_eq!(parse_pubkey("0OIl"), Err(KeyError::Invalid));
    assert_eq!(parse_pubkey(""), Err(KeyError::WrongSize));
    assert_eq!(parse_pubkey("abc"), Err(KeyError::WrongSize));
    let long = "2".repeat(45);
    assert_eq!(parse_pubkey(&long), Err(KeyError::WrongSize));
    // a canonical text of 32 bytes with one extra leading '1' names 33 bytes
    let extra = format!("1{}", TOKEN_PROGRAM);
    assert_eq!(parse_pubkey(&extra), Err(KeyError::WrongSize));
}

#[test]
fn balance_of_a_malformed_key_is_a_client_error() {
    let err = balance_request("not-a-real-pubkey").unwrap_err();
    assert_eq!(err.status, 400);
    assert_eq!(err.status, CLIENT_ERROR);
    assert!(!err.message.is_empty());
    assert_eq!(err.message, "Invalid public key: Invalid Base58 string");
    let ok = balance_request(TOKEN_PROGRAM).unwrap();
    assert_eq!(ok.bytes, TOKEN_PROGRAM_BYTES);
}

#[test]
fn key_field_reports_wrong_size() {
    let err = parse_key_field("abc", "Invalid x: ").unwrap_err();
    assert_eq!(err.reason, KeyError::WrongSize);
    assert_eq!(err.message, "Invalid x: String is the wrong size");
}

#[test]
fn create_token_request_is_validated() {
    let bad = CreateTokenRequest { mint_authority: "xyz0".to_string(), decimals: 6 };
    let err = validate_create_token(&bad).unwrap_err();
    assert_eq!(err.status, 400);
    assert_eq!(err.message, "Invalid mint_authority: Invalid Base58 string");
    let good = CreateTokenRequest { mint_authority: TOKEN_PROGRAM.to_string(), decimals: 6 };
    assert_eq!(validate_create_token(&good).unwrap().bytes, TOKEN_PROGRAM_BYTES);
}

#[test]
fn mint_request_reports_the_first_bad_field() {
    let good = key(3).to_base58();
    let req = |m: &str, d: &str, a: &str| TokenTransferRequest {
        mint: m.to_string(),
        destination: d.to_string(),
        authority: a.to_string(),
        amount: 5,
    };
    let e = validate_mint_token(&req("bad!", "bad!", "bad!")).unwrap_err();
    assert_eq!(e.message, "Error: Invalid Base58 string");
    let e = validate_mint_token(&req(&good, "abc", "bad!")).unwrap_err();
    assert_eq!(e.message, "Invalid destination: String is the wrong size");
    let e = validate_mint_token(&req(&good, &good, "bad!")).unwrap_err();
    assert_eq!(e.message, "Invalid authority: Invalid Base58 string");
    let k = validate_mint_token(&req(&good, TOKEN_PROGRAM, &good)).unwrap();
    assert_eq!(k.mint, key(3));
    assert_eq!(k.destination.bytes, TOKEN_PROGRAM_BYTES);
    assert_eq!(k.authority, key(3));
    assert_eq!(k.amount, 5);
}

#[test]
fn generated_keypair_signs_and_verifies() {
    let resp = create_keypair();
    let pubkey = parse_pubkey(&resp.pubkey).unwrap();
    let pair = KeyPair::from_base58(&resp.secret).unwrap();
    assert_eq!(pair.public_key(), pubkey);
    assert_eq!(pair.to_base58(), resp.secret);
    let sig = pair.sign(b"hello");
    assert!(sig.verify(&pubkey, b"hello"));
    assert!(!sig.verify(&pubkey, b"hellO"));
    let sdk = Keypair::from_base58_string(&resp.secret);
    assert_eq!(sdk.to_base58_string(), resp.secret);
}

#[test]
fn sign_then_verify_scenario() {
    let pair = create_keypair();
    let signed = sign_message(&sign_req("hello", &pair.secret)).unwrap();
    assert_eq!(signed.message, "hello");
    assert_eq!(signed.public_key, pair.pubkey);
    let verify = |message: &str, pubkey: &str| VerifyRequest {
        message: message.to_string(),
        signature: signed.signature.clone(),
        pubkey: pubkey.to_string(),
        secret: None,
    };
    let ok = verify_signature(&verify("hello", &pair.pubkey)).unwrap();
    assert!(ok.valid);
    assert!(!ok.used_secret);
    assert_eq!(ok.public_key, pair.pubkey);
    assert_eq!(ok.message, "hello");
    assert!(!verify_signature(&verify("hello!", &pair.pubkey)).unwrap().valid);
    let other = create_keypair();
    assert!(!verify_signature(&verify("hello", &other.pubkey)).unwrap().valid);
}

#[test]
fn signature_matches_the_sdk() {
    let pair = create_keypair();
    let sdk = Keypair::from_base58_string(&pair.secret);
    let signed = sign_message(&sign_req("payload", &pair.secret)).unwrap();
    assert_eq!(signed.signature, sdk.sign_message(b"payload").to_string());
}

#[test]
fn verification_appends_the_secret() {
    let pair = create_keypair();
    let signed = sign_message(&sign_req("hello world", &pair.secret)).unwrap();
    let req = VerifyRequest {
        message: "hello".to_string(),
        signature: signed.signature.clone(),
        pubkey: pair.pubkey.clone(),
        secret: Some(" world".to_string()),
    };
    let r = verify_signature(&req).unwrap();
    assert!(r.valid);
    assert!(r.used_secret);
    assert_eq!(message_to_verify(&"ab".to_string(), &Some("cd".to_string())), "abcd");
    assert_eq!(message_to_verify(&"ab".to_string(), &None), "ab");
}

#[test]
fn bad_secret_is_a_client_error() {
    let e = sign_message(&sign_req("hello", "0OIl")).unwrap_err();
    assert_eq!(e.status, 400);
    assert_eq!(e.reason, KeyError::Invalid);
    assert_eq!(e.message, "Invalid secret: Invalid Base58 string");
    let e = sign_message(&sign_req("hello", TOKEN_PROGRAM)).unwrap_err();
    assert_eq!(e.reason, KeyError::WrongSize);
    // 64 bytes whose second half is not the key of the first half
    let forged = solana_sdk::bs58::encode([9u8; 64]).into_string();
    assert!(sign_message(&sign_req("hello", &forged)).is_err());
}

#[test]
fn bad_verify_inputs_are_client_errors() {
    let pair = create_keypair();
    let req = |sig: &str, pk: &str| VerifyRequest {
        message: "m".to_string(),
        signature: sig.to_string(),
        pubkey: pk.to_string(),
        secret: None,
    };
    let e = verify_signature(&req("x", "not-a-real-pubkey")).unwrap_err();
    assert_eq!(e.message, "Invalid public key: Invalid Base58 string");
    let e = verify_signature(&req("0", &pair.pubkey)).unwrap_err();
    assert_eq!(e.message, "Invalid signature: failed to decode string to signature");
    let e = verify_signature(&req("abc", &pair.pubkey)).unwrap_err();
    assert_eq!(e.message, "Invalid signature: string decoded to wrong size for signature");
    assert_eq!(SignatureBytes::parse(&"2".repeat(89)), Err(KeyError::WrongSize));
}

#[test]
fn signature_text_round_trips() {
    let sig = SignatureBytes { bytes: [7u8; 64] };
    let text = sig.to_base58();
    assert_eq!(SignatureBytes::parse(&text).unwrap(), sig);
}

#[test]
fn create_token_issues_two_instructions() {
    let payer = key(1);
    let mint = key(2);
    let authority = key(3);
    let ixs = create_token_instructions(payer, mint, authority, 9, 1_461_600);
    assert_eq!(ixs.len(), 2);
    let create = &ixs[0];
    assert_eq!(create.program_id.bytes, [0u8; 32]);
    assert_eq!(create.accounts.len(), 2);
    assert!(create.accounts[0].is_signer && create.accounts[0].is_writable);
    assert_eq!(create.accounts[1].pubkey, mint);
    let mut data = vec![0u8, 0, 0, 0];
    data.extend_from_slice(&1_461_600u64.to_le_bytes());
    data.extend_from_slice(&82u64.to_le_bytes());
    data.extend_from_slice(&TOKEN_PROGRAM_BYTES);
    assert_eq!(create.data, data);
    let init = &ixs[1];
    assert_eq!(init.program_id.bytes, TOKEN_PROGRAM_BYTES);
    let mut data = vec![0u8, 9];
    data.extend_from_slice(&[3u8; 32]);
    data.push(0);
    assert_eq!(init.data, data);
    assert_eq!(init.accounts[0].pubkey, mint);
    assert!(!init.accounts[0].is_signer);
    assert_eq!(
        init.accounts[1].pubkey.bytes,
        Pubkey::from_str("SysvarRent111111111111111111111111111111111").unwrap().to_bytes()
    );
}

#[test]
fn mint_token_issues_account_creation_then_mint() {
    let payer = key(1);
    let mint = key(2);
    let destination = key(4);
    let authority = key(5);
    let (account, ixs) = mint_token_instructions(payer, mint, destination, authority, 1000);
    let expected = spl_associated_token_account::get_associated_token_address(
        &Pubkey::from(destination.bytes),
        &Pubkey::from(mint.bytes),
    );
    assert_eq!(account.bytes, expected.to_bytes());
    assert_eq!(ixs.len(), 2);
    assert_eq!(ixs[0].data, vec![0u8]);
    assert_eq!(ixs[0].accounts.len(), 6);
    assert_eq!(ixs[0].accounts[1].pubkey, account);
    let mut data = vec![7u8];
    data.extend_from_slice(&1000u64.to_le_bytes());
    assert_eq!(ixs[1].data, data);
    assert_eq!(ixs[1].accounts.len(), 4);
    assert_eq!(ixs[1].accounts[2].pubkey, authority);
    assert!(!ixs[1].accounts[2].is_signer);
    assert_eq!(ixs[1].accounts[3].pubkey, payer);
    assert!(ixs[1].accounts[3].is_signer);
}

#[test]
fn transactions_are_fully_signed() {
    let payer = KeyPair::generate();
    let mint = KeyPair::generate();
    let tx = create_token_transaction(&payer, &mint, key(3), 6, 1_461_600, [1u8; 32]);
    assert_eq!(tx.signatures.len(), 2);
    assert!(tx.verify().is_ok());
    assert_eq!(tx.message.instructions.len(), 2);
    assert_eq!(tx.message.account_keys[0].to_bytes(), payer.public_key().bytes);
    assert_eq!(tx.message.account_keys[1].to_bytes(), mint.public_key().bytes);
    assert_eq!(tx.message.recent_blockhash.to_bytes(), [1u8; 32]);
    let (account, tx) = mint_token_transaction(&payer, key(2), key(4), key(5), 10, [2u8; 32]);
    assert_eq!(tx.signatures.len(), 1);
    assert!(tx.verify().is_ok());
    assert_eq!(tx.message.account_keys[0].to_bytes(), payer.public_key().bytes);
    assert_eq!(tx.message.recent_blockhash.to_bytes(), [2u8; 32]);
    assert_ne!(account, key(4));
}

#[test]
fn non_ascii_texts_are_refused_by_byte_length() {
    assert_eq!(parse_pubkey("\u{e9}abc"), Err(KeyError::Invalid));
    // 23 characters, 46 bytes
    assert_eq!(parse_pubkey(&"\u{e9}".repeat(23)), Err(KeyError::WrongSize));
    assert_eq!(SignatureBytes::parse("\u{e9}"), Err(KeyError::Invalid));
    assert_eq!(SignatureBytes::parse(&"\u{e9}".repeat(45)), Err(KeyError::WrongSize));
}

#[test]
fn mint_account_len_matches_the_token_program() {
    assert_eq!(mint_account_len(), 82);
}

#[test]
fn mint_request_with_malformed_mint_is_a_client_error() {
    let req = TokenTransferRequest {
        mint: "not-a-real-pubkey".to_string(),
        destination: "11111111111111111111111111111111".to_string(),
        authority: "11111111111111111111111111111111".to_string(),
        amount: 1,
    };
    let e = validate_mint_token(&req).unwrap_err();
    assert_eq!(e.status, 400);
    assert!(!e.message.is_empty());
}
