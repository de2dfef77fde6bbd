//! The endpoint operations: each validates its request field by field, runs
//! one primitive, and shapes the result; and the envelope every endpoint
//! answers with.
use crate::codec::{base58_decoding, base58_encoding, base64_decoding, base64_encoding, encode_base58, encode_base64};
use crate::keys::{
    ed25519_signature, keypair_bytes_valid, public_half, public_key_of, random_keypair_bytes,
    sign_with_keypair, signature_verifies, ed25519_verify, KEYPAIR_LEN, SIGNATURE_LEN,
};
use crate::token::{
    accounts_view, build_mint_instruction, build_mint_to_instruction, initialize_mint_data,
    mint_to_data, rent_sysvar_id, token_program_id, InstructionParts,
};
use crate::validate::{
    amount_allowed, check_amount, check_decimals, decimals_allowed, is_identifier, is_secret_text,
    is_signature_text, parse_identifier, parse_secret, parse_signature, require_field, Field,
    ServiceError,
};
use vstd::prelude::*;
use vstd::utf8::encode_utf8;

verus! {

/// A freshly generated key pair, both halves in base58.
pub struct WalletResponse {
    pub pubkey: String,
    pub secret: String,
}

/// Parameters of a mint initialisation.
pub struct CreateTokenRequest {
    pub mint_authority: Option<String>,
    pub mint: Option<String>,
    pub decimals: Option<u64>,
}

/// Parameters of a mint-to.
pub struct MintTokenRequest {
    pub mint: Option<String>,
    pub destination: Option<String>,
    pub authority: Option<String>,
    pub amount: Option<u64>,
}

/// One account of a rendered instruction.
pub struct AccountResponse {
    pub pubkey: String,
    pub is_signer: bool,
    pub is_writable: bool,
}

/// A rendered instruction: identifiers in base58, payload in base64.
pub struct InstructionResponse {
    pub program_id: String,
    pub accounts: Vec<AccountResponse>,
    pub instruction_data: String,
}

/// A message and the base58 key-pair bytes to sign it with.
pub struct SignMessageRequest {
    pub message: Option<String>,
    pub secret: Option<String>,
}

/// A signature in base64, the signer's public key in base58, and the message.
pub struct SignMessageResponse {
    pub signature: String,
    pub public_key: String,
    pub message: String,
}

/// A message, a base64 signature and a base58 public key to check it against.
pub struct VerifyMessageRequest {
    pub message: Option<String>,
    pub signature: Option<String>,
    pub pubkey: Option<String>,
}

/// The outcome of a verification, with the message and key echoed back.
pub struct VerifyMessageResponse {
    pub valid: bool,
    pub message: String,
    pub pubkey: String,
}

/// The uniform answer of every endpoint: a payload or an error message,
/// never both.
pub enum Envelope<T> {
    Success(T),
    Failure(String),
}

/// The bytes of a text that is known to decode.
pub open spec fn decoded58(text: Seq<char>) -> Seq<u8> {
    base58_decoding(text).unwrap()
}

/// The bytes of a base64 text that is known to decode.
pub open spec fn decoded64(text: Seq<char>) -> Seq<u8> {
    base64_decoding(text).unwrap()
}

/// The text of an optional field that is known to be present.
pub open spec fn text_of(field: Option<String>) -> Seq<char> {
    field.unwrap()@
}

/// What an account entry of a response holds.
pub open spec fn account_response_view(a: AccountResponse) -> (Seq<char>, bool, bool) {
    (a.pubkey@, a.is_signer, a.is_writable)
}

/// Whether a response renders an instruction with the given program,
/// accounts and payload.
pub open spec fn renders_instruction(
    resp: InstructionResponse,
    program: Seq<u8>,
    accounts: Seq<(Seq<u8>, bool, bool)>,
    data: Seq<u8>,
) -> bool {
    &&& resp.program_id@ == base58_encoding(program)
    &&& resp.accounts@.len() == accounts.len()
    &&& forall|i: int|
        0 <= i < accounts.len() ==> #[trigger] account_response_view(resp.accounts@[i]) == (
            base58_encoding(accounts[i].0),
            accounts[i].1,
            accounts[i].2,
        )
    &&& resp.instruction_data@ == base64_encoding(data)
}

/// The first check that a mint initialisation request fails, if any.
pub open spec fn create_token_error(req: CreateTokenRequest) -> Option<ServiceError> {
    if req.mint_authority is None {
        Some(ServiceError::MissingField(Field::MintAuthority))
    } else if req.mint is None {
        Some(ServiceError::MissingField(Field::Mint))
    } else if req.decimals is None {
        Some(ServiceError::MissingField(Field::Decimals))
    } else if !is_identifier(text_of(req.mint)) {
        Some(ServiceError::InvalidIdentifier(Field::Mint))
    } else if !is_identifier(text_of(req.mint_authority)) {
        Some(ServiceError::InvalidIdentifier(Field::MintAuthority))
    } else if !decimals_allowed(req.decimals.unwrap()) {
        Some(ServiceError::InvalidDecimals)
    } else {
        None
    }
}

/// The first check that a mint-to request fails, if any.
pub open spec fn mint_token_error(req: MintTokenRequest) -> Option<ServiceError> {
    if req.mint is None {
        Some(ServiceError::MissingField(Field::Mint))
    } else if req.destination is None {
        Some(ServiceError::MissingField(Field::Destination))
    } else if req.authority is None {
        Some(ServiceError::MissingField(Field::Authority))
    } else if req.amount is None {
        Some(ServiceError::MissingField(Field::Amount))
    } else if !is_identifier(text_of(req.mint)) {
        Some(ServiceError::InvalidIdentifier(Field::Mint))
    } else if !is_identifier(text_of(req.destination)) {
        Some(ServiceError::InvalidIdentifier(Field::Destination))
    } else if !is_identifier(text_of(req.authority)) {
        Some(ServiceError::InvalidIdentifier(Field::Authority))
    } else if !amount_allowed(req.amount.unwrap()) {
        Some(ServiceError::InvalidAmount)
    } else {
        None
    }
}

/// The first check that a signing request fails, if any.
pub open spec fn sign_message_error(req: SignMessageRequest) -> Option<ServiceError> {
    if req.message is None {
        Some(ServiceError::MissingField(Field::Message))
    } else if req.secret is None {
        Some(ServiceError::MissingField(Field::Secret))
    } else if !is_secret_text(text_of(req.secret)) {
        Some(ServiceError::InvalidSecretKey)
    } else if !keypair_bytes_valid(decoded58(text_of(req.secret))) {
        Some(ServiceError::KeyReconstructionError)
    } else {
        None
    }
}

/// The first check that a verification request fails, if any.
pub open spec fn verify_message_error(req: VerifyMessageRequest) -> Option<ServiceError> {
    if req.message is None {
        Some(ServiceError::MissingField(Field::Message))
    } else if req.signature is None {
        Some(ServiceError::MissingField(Field::Signature))
    } else if req.pubkey is None {
        Some(ServiceError::MissingField(Field::Pubkey))
    } else if !is_identifier(text_of(req.pubkey)) {
        Some(ServiceError::InvalidIdentifier(Field::Pubkey))
    } else if !is_signature_text(text_of(req.signature)) {
        Some(ServiceError::InvalidSignature)
    } else {
        None
    }
}

/// Whether a response is the one that signing the request's message with
/// its key pair gives: the signature and key as texts that decode back, and
/// the message echoed.
pub open spec fn signs(req: SignMessageRequest, resp: SignMessageResponse) -> bool {
    let keypair = decoded58(text_of(req.secret));
    let bytes = encode_utf8(text_of(req.message));
    let sig = ed25519_signature(keypair, bytes);
    &&& keypair.len() == KEYPAIR_LEN
    &&& sig.len() == SIGNATURE_LEN
    &&& resp.signature@ == base64_encoding(sig)
    &&& base64_decoding(resp.signature@) == Some(sig)
    &&& resp.public_key@ == base58_encoding(public_half(keypair))
    &&& base58_decoding(resp.public_key@) == Some(public_half(keypair))
    &&& resp.message@ == text_of(req.message)
    &&& signature_verifies(public_half(keypair), sig, bytes)
}

/// Whether a response holds a valid key pair in base58 and its public key,
/// the second half of the pair, in base58.
pub open spec fn is_wallet(w: WalletResponse) -> bool {
    &&& is_secret_text(w.secret@)
    &&& keypair_bytes_valid(decoded58(w.secret@))
    &&& is_identifier(w.pubkey@)
    &&& decoded58(w.pubkey@) == public_half(decoded58(w.secret@))
    &&& w.secret@ == base58_encoding(decoded58(w.secret@))
    &&& w.pubkey@ == base58_encoding(decoded58(w.pubkey@))
}

/// Whether a well-formed verification request's signature verifies.
pub open spec fn verify_outcome(req: VerifyMessageRequest) -> bool {
    signature_verifies(
        decoded58(text_of(req.pubkey)),
        decoded64(text_of(req.signature)),
        encode_utf8(text_of(req.message)),
    )
}

/// Renders an instruction: identifiers in base58, payload in base64.
pub fn render_instruction(ix: &InstructionParts) -> (r: InstructionResponse)
    ensures
        renders_instruction(r, ix.program_id@, accounts_view(ix.accounts@), ix.data@),
{
    let mut accounts: Vec<AccountResponse> = Vec::new();
    let mut i: usize = 0;
    while i < ix.accounts.len()
        invariant
            i <= ix.accounts@.len(),
            accounts@.len() == i,
            forall|j: int|
                0 <= j < i ==> #[trigger] account_response_view(accounts@[j]) == (
                    base58_encoding(ix.accounts@[j].key@),
                    ix.accounts@[j].is_signer,
                    ix.accounts@[j].is_writable,
                ),
        decreases ix.accounts@.len() - i,
    {
        let a = &ix.accounts[i];
        let entry = AccountResponse {
            pubkey: encode_base58(a.key.as_slice()),
            is_signer: a.is_signer,
            is_writable: a.is_writable,
        };
        accounts.push(entry);
        i = i + 1;
    }
    InstructionResponse {
        program_id: encode_base58(ix.program_id.as_slice()),
        accounts,
        instruction_data: encode_base64(ix.data.as_slice()),
    }
}

/// Generates a fresh key pair: the public key and the 64 key-pair bytes,
/// each in base58.
pub fn create_wallet() -> (r: WalletResponse)
    ensures
        is_wallet(r),
{
    let keypair = random_keypair_bytes();
    let public = public_key_of(keypair.as_slice());
    WalletResponse { pubkey: encode_base58(public.as_slice()), secret: encode_base58(keypair.as_slice()) }
}

/// Builds the instruction that initialises a mint with the request's
/// authority and decimals and no freeze authority.
pub fn create_token(req: CreateTokenRequest) -> (r: Result<InstructionResponse, ServiceError>)
    ensures
        r is Err <==> create_token_error(req) is Some,
        r matches Err(e) ==> create_token_error(req) == Some(e),
        r matches Ok(resp) ==> renders_instruction(
            resp,
            token_program_id(),
            seq![(decoded58(text_of(req.mint)), false, true), (rent_sysvar_id(), false, false)],
            initialize_mint_data(decoded58(text_of(req.mint_authority)), req.decimals.unwrap() as u8),
        ),
{
    let authority_text = match require_field(req.mint_authority, Field::MintAuthority) {
        Ok(t) => t,
        Err(e) => return Err(e),
    };
    let mint_text = match require_field(req.mint, Field::Mint) {
        Ok(t) => t,
        Err(e) => return Err(e),
    };
    let decimals = match require_field(req.decimals, Field::Decimals) {
        Ok(d) => d,
        Err(e) => return Err(e),
    };
    let mint = match parse_identifier(mint_text.as_str(), Field::Mint) {
        Ok(b) => b,
        Err(e) => return Err(e),
    };
    let authority = match parse_identifier(authority_text.as_str(), Field::MintAuthority) {
        Ok(b) => b,
        Err(e) => return Err(e),
    };
    let decimals = match check_decimals(decimals) {
        Ok(d) => d,
        Err(e) => return Err(e),
    };
    match build_mint_instruction(mint.as_slice(), authority.as_slice(), decimals) {
        Some(ix) => Ok(render_instruction(&ix)),
        None => Err(ServiceError::InstructionBuildError),
    }
}

/// Builds the instruction that mints the request's amount to its
/// destination, signed by its authority alone.
pub fn mint_token(req: MintTokenRequest) -> (r: Result<InstructionResponse, ServiceError>)
    ensures
        r is Err <==> mint_token_error(req) is Some,
        r matches Err(e) ==> mint_token_error(req) == Some(e),
        r matches Ok(resp) ==> renders_instruction(
            resp,
            token_program_id(),
            seq![
                (decoded58(text_of(req.mint)), false, true),
                (decoded58(text_of(req.destination)), false, true),
                (decoded58(text_of(req.authority)), true, false),
            ],
            mint_to_data(req.amount.unwrap()),
        ),
{
    let mint_text = match require_field(req.mint, Field::Mint) {
        Ok(t) => t,
        Err(e) => return Err(e),
    };
    let destination_text = match require_field(req.destination, Field::Destination) {
        Ok(t) => t,
        Err(e) => return Err(e),
    };
    let authority_text = match require_field(req.authority, Field::Authority) {
        Ok(t) => t,
        Err(e) => return Err(e),
    };
    let amount = match require_field(req.amount, Field::Amount) {
        Ok(a) => a,
        Err(e) => return Err(e),
    };
    let mint = match parse_identifier(mint_text.as_str(), Field::Mint) {
        Ok(b) => b,
        Err(e) => return Err(e),
    };
    let destination = match parse_identifier(destination_text.as_str(), Field::Destination) {
        Ok(b) => b,
        Err(e) => return Err(e),
    };
    let authority = match parse_identifier(authority_text.as_str(), Field::Authority) {
        Ok(b) => b,
        Err(e) => return Err(e),
    };
    let amount = match check_amount(amount) {
        Ok(a) => a,
        Err(e) => return Err(e),
    };
    match build_mint_to_instruction(mint.as_slice(), destination.as_slice(), authority.as_slice(), amount) {
        Some(ix) => Ok(render_instruction(&ix)),
        None => Err(ServiceError::InstructionBuildError),
    }
}

/// Signs the request's message (its UTF-8 bytes) with the key pair given
/// as base58 secret.
pub fn sign_message(req: SignMessageRequest) -> (r: Result<SignMessageResponse, ServiceError>)
    ensures
        r is Err <==> sign_message_error(req) is Some,
        r matches Err(e) ==> sign_message_error(req) == Some(e),
        r matches Ok(resp) ==> signs(req, resp),
{
    let message = match require_field(req.message, Field::Message) {
        Ok(m) => m,
        Err(e) => return Err(e),
    };
    let secret_text = match require_field(req.secret, Field::Secret) {
        Ok(s) => s,
        Err(e) => return Err(e),
    };
    let keypair = match parse_secret(secret_text.as_str()) {
        Ok(b) => b,
        Err(e) => return Err(e),
    };
    let bytes = message.as_str().as_bytes();
    let signature = match sign_with_keypair(keypair.as_slice(), bytes) {
        Some(s) => s,
        None => return Err(ServiceError::KeyReconstructionError),
    };
    let public = public_key_of(keypair.as_slice());
    Ok(SignMessageResponse {
        signature: encode_base64(signature.as_slice()),
        public_key: encode_base58(public.as_slice()),
        message,
    })
}

/// Checks the request's base64 signature over its message (UTF-8 bytes)
/// against its base58 public key. A signature that does not verify is a
/// `false` outcome, not an error.
pub fn verify_message(req: VerifyMessageRequest) -> (r: Result<VerifyMessageResponse, ServiceError>)
    ensures
        r is Err <==> verify_message_error(req) is Some,
        r matches Err(e) ==> verify_message_error(req) == Some(e),
        r matches Ok(resp) ==> resp.valid == verify_outcome(req),
        r matches Ok(resp) ==> resp.message@ == text_of(req.message),
        r matches Ok(resp) ==> resp.pubkey@ == text_of(req.pubkey),
{
    let message = match require_field(req.message, Field::Message) {
        Ok(m) => m,
        Err(e) => return Err(e),
    };
    let signature_text = match require_field(req.signature, Field::Signature) {
        Ok(s) => s,
        Err(e) => return Err(e),
    };
    let pubkey_text = match require_field(req.pubkey, Field::Pubkey) {
        Ok(p) => p,
        Err(e) => return Err(e),
    };
    let pubkey = match parse_identifier(pubkey_text.as_str(), Field::Pubkey) {
        Ok(b) => b,
        Err(e) => return Err(e),
    };
    let signature = match parse_signature(signature_text.as_str()) {
        Ok(b) => b,
        Err(e) => return Err(e),
    };
    let valid = ed25519_verify(pubkey.as_slice(), signature.as_slice(), message.as_str().as_bytes());
    Ok(VerifyMessageResponse { valid, message, pubkey: pubkey_text })
}

impl<T> Envelope<T> {
    /// Wraps a payload.
    pub fn success(payload: T) -> (r: Self)
        ensures
            r == Envelope::Success(payload),
    {
        Envelope::Success(payload)
    }

    /// Wraps an error message.
    pub fn failure(message: String) -> (r: Self)
        ensures
            r == Envelope::<T>::Failure(message),
    {
        Envelope::Failure(message)
    }

    /// The success flag: whether a payload is carried.
    pub fn is_success(&self) -> (r: bool)
        ensures
            r == (self is Success),
    {
        match self {
            Envelope::Success(_) => true,
            Envelope::Failure(_) => false,
        }
    }
}

/// The HTTP status that an outcome is answered with.
pub open spec fn status_of<T>(outcome: Result<T, ServiceError>) -> u16 {
    match outcome {
        Ok(_) => 200,
        Err(e) => if e.is_client_error() { 400 } else { 500 },
    }
}

/// Answers an outcome: status 200 with the payload, or the error's status
/// with its message.
pub fn respond<T>(outcome: Result<T, ServiceError>) -> (r: (u16, Envelope<T>))
    ensures
        r.0 == status_of(outcome),
        outcome matches Ok(p) ==> r.1 == Envelope::Success(p),
        outcome matches Err(e) ==> (r.1 matches Envelope::Failure(m) && m@ == e.message_spec()),
{
    match outcome {
        Ok(p) => (200, Envelope::success(p)),
        Err(e) => (e.status_code(), Envelope::failure(e.message())),
    }
}

/// A signature that signing returned, checked with the public key that
/// signing returned over the same message, is well-formed and verifies.
pub proof fn lemma_sign_then_verify(
    sign_req: SignMessageRequest,
    signed: SignMessageResponse,
    verify_req: VerifyMessageRequest,
)
    requires
        signs(sign_req, signed),
        verify_req.message matches Some(m) && m@ == signed.message@,
        verify_req.signature matches Some(s) && s@ == signed.signature@,
        verify_req.pubkey matches Some(p) && p@ == signed.public_key@,
    ensures
        verify_message_error(verify_req) is None,
        verify_outcome(verify_req),
{
}

/// The secret of a generated wallet signs any message, and the signer's
/// public key that signing reports is the wallet's public key.
pub proof fn lemma_wallet_secret_signs(
    wallet: WalletResponse,
    sign_req: SignMessageRequest,
    signed: SignMessageResponse,
)
    requires
        is_wallet(wallet),
        sign_req.message is Some,
        sign_req.secret matches Some(s) && s@ == wallet.secret@,
    ensures
        sign_message_error(sign_req) is None,
        signs(sign_req, signed) ==> signed.public_key@ == wallet.pubkey@,
{
}

/// The fixed body of the health check.
pub fn check_health() -> (r: String)
    ensures
        r@ == "server is working"@,
{
    "server is working".to_owned()
}

} // verus!
