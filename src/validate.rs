//! Request fields, the error taxonomy, and the checks applied to each field
//! before any operation runs.
use crate::codec::{base58_decoding, base64_decoding, decode_base58, decode_base64};
use crate::keys::{KEYPAIR_LEN, PUBKEY_LEN, SIGNATURE_LEN};
use vstd::prelude::*;

verus! {

/// The request fields that a check can name.
#[derive(Clone, Copy, Debug, PartialEq, Eq, Structural)]
pub enum Field {
    Mint,
    MintAuthority,
    Destination,
    Authority,
    Pubkey,
    Secret,
    Signature,
    Message,
    Decimals,
    Amount,
}

/// Why a request was not served.
#[derive(Clone, Copy, Debug, PartialEq, Eq, Structural)]
pub enum ServiceError {
    MissingField(Field),
    InvalidIdentifier(Field),
    InvalidSecretKey,
    InvalidSignature,
    InvalidDecimals,
    InvalidAmount,
    KeyReconstructionError,
    InstructionBuildError,
}

/// Largest number of decimals a mint may have.
pub const MAX_DECIMALS: u64 = 18;

/// Whether a text names an identifier: base58 for exactly 32 bytes.
pub open spec fn is_identifier(text: Seq<char>) -> bool {
    base58_decoding(text) matches Some(b) && b.len() == PUBKEY_LEN
}

/// Whether a text holds key-pair bytes: base58 for exactly 64 bytes.
pub open spec fn is_secret_text(text: Seq<char>) -> bool {
    base58_decoding(text) matches Some(b) && b.len() == KEYPAIR_LEN
}

/// Whether a text holds a signature: base64 for exactly 64 bytes.
pub open spec fn is_signature_text(text: Seq<char>) -> bool {
    base64_decoding(text) matches Some(b) && b.len() == SIGNATURE_LEN
}

/// Whether a decimal precision is allowed.
pub open spec fn decimals_allowed(decimals: u64) -> bool {
    decimals <= MAX_DECIMALS
}

/// Whether an amount to mint is allowed.
pub open spec fn amount_allowed(amount: u64) -> bool {
    amount > 0
}

impl Field {
    /// The field's name as the request spells it.
    pub fn name(&self) -> (r: &'static str)
        ensures
            r@ == self.name_spec(),
    {
        match self {
            Field::Mint => "mint",
            Field::MintAuthority => "mintAuthority",
            Field::Destination => "destination",
            Field::Authority => "authority",
            Field::Pubkey => "pubkey",
            Field::Secret => "secret",
            Field::Signature => "signature",
            Field::Message => "message",
            Field::Decimals => "decimals",
            Field::Amount => "amount",
        }
    }

    pub open spec fn name_spec(&self) -> Seq<char> {
        match self {
            Field::Mint => "mint"@,
            Field::MintAuthority => "mintAuthority"@,
            Field::Destination => "destination"@,
            Field::Authority => "authority"@,
            Field::Pubkey => "pubkey"@,
            Field::Secret => "secret"@,
            Field::Signature => "signature"@,
            Field::Message => "message"@,
            Field::Decimals => "decimals"@,
            Field::Amount => "amount"@,
        }
    }
}

impl ServiceError {
    /// Whether the fault lies with the request rather than the service.
    pub open spec fn is_client_error(&self) -> bool {
        !(self matches ServiceError::InstructionBuildError)
    }

    /// The HTTP status that reports this error: 400 for a bad request, 500
    /// for a failure of the service itself.
    pub fn status_code(&self) -> (r: u16)
        ensures
            self.is_client_error() ==> r == 400,
            !self.is_client_error() ==> r == 500,
    {
        match self {
            ServiceError::InstructionBuildError => 500,
            _ => 400,
        }
    }

    /// A human-readable description of the error.
    pub fn message(&self) -> (r: String)
        ensures
            r@ == self.message_spec(),
    {
        let text: &str = match self {
            ServiceError::MissingField(Field::Mint) => "Missing field: mint",
            ServiceError::MissingField(Field::MintAuthority) => "Missing field: mintAuthority",
            ServiceError::MissingField(Field::Destination) => "Missing field: destination",
            ServiceError::MissingField(Field::Authority) => "Missing field: authority",
            ServiceError::MissingField(Field::Pubkey) => "Missing field: pubkey",
            ServiceError::MissingField(Field::Secret) => "Missing field: secret",
            ServiceError::MissingField(Field::Signature) => "Missing field: signature",
            ServiceError::MissingField(Field::Message) => "Missing field: message",
            ServiceError::MissingField(Field::Decimals) => "Missing field: decimals",
            ServiceError::MissingField(Field::Amount) => "Missing field: amount",
            ServiceError::InvalidIdentifier(Field::Mint) => "Invalid mint public key",
            ServiceError::InvalidIdentifier(Field::MintAuthority) => "Invalid mint authority public key",
            ServiceError::InvalidIdentifier(Field::Destination) => "Invalid destination public key",
            ServiceError::InvalidIdentifier(Field::Authority) => "Invalid authority public key",
            ServiceError::InvalidIdentifier(_) => "Invalid public key",
            ServiceError::InvalidSecretKey => "Invalid or malformed secret key",
            ServiceError::InvalidSignature => "Invalid signature format",
            ServiceError::InvalidDecimals => "Decimals must be between 0 and 18",
            ServiceError::InvalidAmount => "Amount must be greater than 0",
            ServiceError::KeyReconstructionError => "Failed to construct keypair from secret",
            ServiceError::InstructionBuildError => "Failed to create instruction",
        };
        text.to_owned()
    }

    pub open spec fn message_spec(&self) -> Seq<char> {
        match self {
            ServiceError::MissingField(Field::Mint) => "Missing field: mint"@,
            ServiceError::MissingField(Field::MintAuthority) => "Missing field: mintAuthority"@,
            ServiceError::MissingField(Field::Destination) => "Missing field: destination"@,
            ServiceError::MissingField(Field::Authority) => "Missing field: authority"@,
            ServiceError::MissingField(Field::Pubkey) => "Missing field: pubkey"@,
            ServiceError::MissingField(Field::Secret) => "Missing field: secret"@,
            ServiceError::MissingField(Field::Signature) => "Missing field: signature"@,
            ServiceError::MissingField(Field::Message) => "Missing field: message"@,
            ServiceError::MissingField(Field::Decimals) => "Missing field: decimals"@,
            ServiceError::MissingField(Field::Amount) => "Missing field: amount"@,
            ServiceError::InvalidIdentifier(Field::Mint) => "Invalid mint public key"@,
            ServiceError::InvalidIdentifier(Field::MintAuthority) => "Invalid mint authority public key"@,
            ServiceError::InvalidIdentifier(Field::Destination) => "Invalid destination public key"@,
            ServiceError::InvalidIdentifier(Field::Authority) => "Invalid authority public key"@,
            ServiceError::InvalidIdentifier(_) => "Invalid public key"@,
            ServiceError::InvalidSecretKey => "Invalid or malformed secret key"@,
            ServiceError::InvalidSignature => "Invalid signature format"@,
            ServiceError::InvalidDecimals => "Decimals must be between 0 and 18"@,
            ServiceError::InvalidAmount => "Amount must be greater than 0"@,
            ServiceError::KeyReconstructionError => "Failed to construct keypair from secret"@,
            ServiceError::InstructionBuildError => "Failed to create instruction"@,
        }
    }
}

/// Takes a field's value out of the request, or reports it missing.
pub fn require_field<T>(value: Option<T>, field: Field) -> (r: Result<T, ServiceError>)
    ensures
        value matches Some(v) ==> r == Ok::<T, ServiceError>(v),
        value is None ==> r == Err::<T, ServiceError>(ServiceError::MissingField(field)),
{
    match value {
        Some(v) => Ok(v),
        None => Err(ServiceError::MissingField(field)),
    }
}

/// Decodes an identifier field: base58 for exactly 32 bytes, else
/// `InvalidIdentifier` naming the field.
pub fn parse_identifier(text: &str, field: Field) -> (r: Result<Vec<u8>, ServiceError>)
    ensures
        r is Ok <==> is_identifier(text@),
        r matches Ok(b) ==> base58_decoding(text@) == Some(b@),
        r matches Ok(b) ==> b@.len() == PUBKEY_LEN,
        r matches Err(e) ==> e == ServiceError::InvalidIdentifier(field),
{
    match decode_base58(text) {
        Some(b) => {
            if b.len() == PUBKEY_LEN {
                Ok(b)
            } else {
                Err(ServiceError::InvalidIdentifier(field))
            }
        },
        None => Err(ServiceError::InvalidIdentifier(field)),
    }
}

/// Decodes a secret field: base58 for exactly 64 key-pair bytes, else
/// `InvalidSecretKey`.
pub fn parse_secret(text: &str) -> (r: Result<Vec<u8>, ServiceError>)
    ensures
        r is Ok <==> is_secret_text(text@),
        r matches Ok(b) ==> base58_decoding(text@) == Some(b@),
        r matches Ok(b) ==> b@.len() == KEYPAIR_LEN,
        r matches Err(e) ==> e == ServiceError::InvalidSecretKey,
{
    match decode_base58(text) {
        Some(b) => {
            if b.len() == KEYPAIR_LEN {
                Ok(b)
            } else {
                Err(ServiceError::InvalidSecretKey)
            }
        },
        None => Err(ServiceError::InvalidSecretKey),
    }
}

/// Decodes a signature field: base64 for exactly 64 bytes, else
/// `InvalidSignature`.
pub fn parse_signature(text: &str) -> (r: Result<Vec<u8>, ServiceError>)
    ensures
        r is Ok <==> is_signature_text(text@),
        r matches Ok(b) ==> base64_decoding(text@) == Some(b@),
        r matches Ok(b) ==> b@.len() == SIGNATURE_LEN,
        r matches Err(e) ==> e == ServiceError::InvalidSignature,
{
    match decode_base64(text) {
        Some(b) => {
            if b.len() == SIGNATURE_LEN {
                Ok(b)
            } else {
                Err(ServiceError::InvalidSignature)
            }
        },
        None => Err(ServiceError::InvalidSignature),
    }
}

/// Checks a decimal precision: at most 18, else `InvalidDecimals`.
pub fn check_decimals(decimals: u64) -> (r: Result<u8, ServiceError>)
    ensures
        r is Ok <==> decimals_allowed(decimals),
        r matches Ok(d) ==> d as u64 == decimals,
        r matches Err(e) ==> e == ServiceError::InvalidDecimals,
{
    if decimals <= MAX_DECIMALS {
        Ok(decimals as u8)
    } else {
        Err(ServiceError::InvalidDecimals)
    }
}

/// Checks an amount to mint: positive, else `InvalidAmount`.
pub fn check_amount(amount: u64) -> (r: Result<u64, ServiceError>)
    ensures
        r is Ok <==> amount_allowed(amount),
        r matches Ok(a) ==> a == amount,
        r matches Err(e) ==> e == ServiceError::InvalidAmount,
{
    if amount > 0 {
        Ok(amount)
    } else {
        Err(ServiceError::InvalidAmount)
    }
}

} // verus!
