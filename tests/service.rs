use solana_api::codec::{decode_base58, decode_base64, encode_base58, encode_base64};
use solana_api::service::{
    check_health, create_token, create_wallet, mint_token, respond, sign_message, verify_message,
    CreateTokenRequest, Envelope, MintTokenRequest, SignMessageRequest, VerifyMessageRequest,
};
use solana_api::validate::{Field, ServiceError};

const TOKEN_PROGRAM: &str = "TokenkegQfeZyiNwAJbNbGKPFXCWuBvf9Ss623VQ5DA";
const RENT_SYSVAR: &str = "SysvarRent111111111111111111111111111111111";

fn id(byte: u8) -> String {
    encode_base58(&[byte; 32])
}

fn create_req(decimals: u64) -> CreateTokenRequest {
    CreateTokenRequest { mint_authority: Some(id(2)), mint: Some(id(1)), decimals: Some(decimals) }
}

fn mint_req(amount: u64) -> MintTokenRequest {
    MintTokenRequest { mint: Some(id(1)), destination: Some(id(3)), authority: Some(id(4)), amount: Some(amount) }
}

fn sign(message: &str, secret: &str) -> Result<solana_api::service::SignMessageResponse, ServiceError> {
    sign_message(SignMessageRequest { message: Some(message.to_string()), secret: Some(secret.to_string()) })
}

fn verify(message: &str, signature: &str, pubkey: &str) -> Result<solana_api::service::VerifyMessageResponse, ServiceError> {
    verify_message(VerifyMessageRequest {
        message: Some(message.to_string()),
        signature: Some(signature.to_string()),
        pubkey: Some(pubkey.to_string()),
    })
}

#[test]
fn health_check_text() {
    assert_eq!(check_health(), "server is working");
}

#[test]
fn wallets_are_fresh_and_well_formed() {
    let a = create_wallet();
    let b = create_wallet();
    assert_ne!(a.pubkey, b.pubkey);
    assert_ne!(a.secret, b.secret);
    let public = decode_base58(&a.pubkey).unwrap();
    let secret = decode_base58(&a.secret).unwrap();
    assert_eq!(public.len(), 32);
    assert_eq!(secret.len(), 64);
    assert_eq!(&secret[32..], &public[..]);
}

#[test]
fn create_token_renders_initialize_mint() {
    let resp = create_token(create_req(6)).unwrap();
    assert_eq!(resp.program_id, TOKEN_PROGRAM);
    assert_eq!(resp.accounts.len(), 2);
    assert_eq!(resp.accounts[0].pubkey, id(1));
    assert!(!resp.accounts[0].is_signer);
    assert!(resp.accounts[0].is_writable);
    assert_eq!(resp.accounts[1].pubkey, RENT_SYSVAR);
    assert!(!resp.accounts[1].is_signer);
    assert!(!resp.accounts[1].is_writable);
    let mut data = vec![0u8, 6];
    data.extend_from_slice(&[2; 32]);
    data.push(0);
    assert_eq!(decode_base64(&resp.instruction_data), Some(data));
}

#[test]
fn create_token_decimals_boundary() {
    assert!(create_token(create_req(0)).is_ok());
    assert!(create_token(create_req(18)).is_ok());
    assert_eq!(create_token(create_req(19)).err(), Some(ServiceError::InvalidDecimals));
}

#[test]
fn create_token_checks_in_order() {
    let missing = CreateTokenRequest { mint_authority: Some(id(2)), mint: None, decimals: Some(99) };
    assert_eq!(create_token(missing).err(), Some(ServiceError::MissingField(Field::Mint)));
    let no_authority = CreateTokenRequest { mint_authority: None, mint: None, decimals: None };
    assert_eq!(create_token(no_authority).err(), Some(ServiceError::MissingField(Field::MintAuthority)));
    let no_decimals = CreateTokenRequest { mint_authority: Some(id(2)), mint: Some(id(1)), decimals: None };
    assert_eq!(create_token(no_decimals).err(), Some(ServiceError::MissingField(Field::Decimals)));
    let both_bad = CreateTokenRequest { mint_authority: Some("x".to_string()), mint: Some("y".to_string()), decimals: Some(99) };
    assert_eq!(create_token(both_bad).err(), Some(ServiceError::InvalidIdentifier(Field::Mint)));
    let bad_authority = CreateTokenRequest { mint_authority: Some("x".to_string()), mint: Some(id(1)), decimals: Some(99) };
    assert_eq!(create_token(bad_authority).err(), Some(ServiceError::InvalidIdentifier(Field::MintAuthority)));
}

#[test]
fn mint_token_renders_mint_to() {
    let resp = mint_token(mint_req(1_000)).unwrap();
    assert_eq!(resp.program_id, TOKEN_PROGRAM);
    let keys: Vec<(String, bool, bool)> = resp.accounts.iter().map(|a| (a.pubkey.clone(), a.is_signer, a.is_writable)).collect();
    assert_eq!(keys, vec![(id(1), false, true), (id(3), false, true), (id(4), true, false)]);
    let mut data = vec![7u8];
    data.extend_from_slice(&1_000u64.to_le_bytes());
    assert_eq!(decode_base64(&resp.instruction_data), Some(data));
}

#[test]
fn mint_token_amount_boundary() {
    assert_eq!(mint_token(mint_req(0)).err(), Some(ServiceError::InvalidAmount));
    assert!(mint_token(mint_req(1)).is_ok());
}

#[test]
fn mint_token_checks_in_order() {
    let missing = MintTokenRequest { mint: Some(id(1)), destination: Some(id(3)), authority: None, amount: Some(0) };
    assert_eq!(mint_token(missing).err(), Some(ServiceError::MissingField(Field::Authority)));
    let missing_amount = MintTokenRequest { mint: Some(id(1)), destination: Some("z".to_string()), authority: Some(id(4)), amount: None };
    assert_eq!(mint_token(missing_amount).err(), Some(ServiceError::MissingField(Field::Amount)));
    let bad = MintTokenRequest { mint: Some(id(1)), destination: Some("z".to_string()), authority: Some("q".to_string()), amount: Some(0) };
    assert_eq!(mint_token(bad).err(), Some(ServiceError::InvalidIdentifier(Field::Destination)));
    let bad_authority = MintTokenRequest { mint: Some(id(1)), destination: Some(id(3)), authority: Some("q".to_string()), amount: Some(0) };
    assert_eq!(mint_token(bad_authority).err(), Some(ServiceError::InvalidIdentifier(Field::Authority)));
}

#[test]
fn keypair_sign_verify_end_to_end() {
    let wallet = create_wallet();
    let signed = sign("hello world", &wallet.secret).unwrap();
    assert_eq!(signed.public_key, wallet.pubkey);
    assert_eq!(signed.message, "hello world");
    assert_eq!(decode_base64(&signed.signature).unwrap().len(), 64);
    let checked = verify("hello world", &signed.signature, &signed.public_key).unwrap();
    assert!(checked.valid);
    assert_eq!(checked.message, "hello world");
    assert_eq!(checked.pubkey, wallet.pubkey);
}

#[test]
fn signing_is_deterministic() {
    let wallet = create_wallet();
    let a = sign("same", &wallet.secret).unwrap();
    let b = sign("same", &wallet.secret).unwrap();
    assert_eq!(a.signature, b.signature);
}

#[test]
fn altered_message_does_not_verify() {
    let wallet = create_wallet();
    let signed = sign("pay 10", &wallet.secret).unwrap();
    let checked = verify("pay 11", &signed.signature, &signed.public_key).unwrap();
    assert!(!checked.valid);
    let other = create_wallet();
    let checked = verify("pay 10", &signed.signature, &other.pubkey).unwrap();
    assert!(!checked.valid);
}

#[test]
fn sign_errors() {
    assert_eq!(sign("m", "not-base58-0OIl").err(), Some(ServiceError::InvalidSecretKey));
    assert_eq!(sign("m", &encode_base58(&[5; 32])).err(), Some(ServiceError::InvalidSecretKey));
    let wallet = decode_base58(&create_wallet().secret).unwrap();
    let mut mismatched = wallet.clone();
    mismatched[40] ^= 1;
    assert_eq!(sign("m", &encode_base58(&mismatched)).err(), Some(ServiceError::KeyReconstructionError));
    let missing = SignMessageRequest { message: None, secret: None };
    assert_eq!(sign_message(missing).err(), Some(ServiceError::MissingField(Field::Message)));
    let missing = SignMessageRequest { message: Some("m".to_string()), secret: None };
    assert_eq!(sign_message(missing).err(), Some(ServiceError::MissingField(Field::Secret)));
}

#[test]
fn verify_errors() {
    let sig = encode_base64(&[0; 64]);
    assert_eq!(verify("m", &sig, "short").err(), Some(ServiceError::InvalidIdentifier(Field::Pubkey)));
    assert_eq!(verify("m", &encode_base64(&[0; 63]), &id(1)).err(), Some(ServiceError::InvalidSignature));
    assert_eq!(verify("m", "***", &id(1)).err(), Some(ServiceError::InvalidSignature));
    let missing = VerifyMessageRequest { message: Some("m".to_string()), signature: None, pubkey: None };
    assert_eq!(verify_message(missing).err(), Some(ServiceError::MissingField(Field::Signature)));
    let missing = VerifyMessageRequest { message: Some("m".to_string()), signature: Some(sig), pubkey: None };
    assert_eq!(verify_message(missing).err(), Some(ServiceError::MissingField(Field::Pubkey)));
}

#[test]
fn structurally_valid_bad_signature_is_false_not_error() {
    let checked = verify("m", &encode_base64(&[0; 64]), &id(1)).unwrap();
    assert!(!checked.valid);
}

#[test]
fn envelope_and_status() {
    let (status, env) = respond::<u8>(Ok(5));
    assert_eq!(status, 200);
    assert!(env.is_success());
    assert!(matches!(env, Envelope::Success(5)));
    let (status, env) = respond::<u8>(Err(ServiceError::InvalidAmount));
    assert_eq!(status, 400);
    assert!(!env.is_success());
    match env {
        Envelope::Failure(m) => assert_eq!(m, "Amount must be greater than 0"),
        Envelope::Success(_) => panic!("expected a failure"),
    }
    let (status, _) = respond::<u8>(Err(ServiceError::InstructionBuildError));
    assert_eq!(status, 500);
}

#[test]
fn error_messages_name_the_field() {
    assert_eq!(ServiceError::InvalidIdentifier(Field::Mint).message(), "Invalid mint public key");
    assert_eq!(ServiceError::InvalidIdentifier(Field::Pubkey).message(), "Invalid public key");
    assert_eq!(ServiceError::MissingField(Field::MintAuthority).message(), "Missing field: mintAuthority");
    assert_eq!(ServiceError::InvalidDecimals.message(), "Decimals must be between 0 and 18");
    assert_eq!(Field::MintAuthority.name(), "mintAuthority");
}
