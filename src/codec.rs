//! Text encodings of byte strings: base58 (identifiers, secrets) and
//! base64 (signatures, instruction payloads).
use base64::Engine;
use vstd::prelude::*;

verus! {

/// The bytes that a base58 text stands for, or `None` where it holds a
/// character outside the alphabet.
pub uninterp spec fn base58_decoding(text: Seq<char>) -> Option<Seq<u8>>;

/// The base58 text of a byte string.
pub uninterp spec fn base58_encoding(bytes: Seq<u8>) -> Seq<char>;

/// The bytes that a padded standard base64 text stands for, or `None` where
/// it is malformed.
pub uninterp spec fn base64_decoding(text: Seq<char>) -> Option<Seq<u8>>;

/// The padded standard base64 text of a byte string.
pub uninterp spec fn base64_encoding(bytes: Seq<u8>) -> Seq<char>;

/// The view of an optional byte vector.
pub open spec fn bytes_view(r: Option<Vec<u8>>) -> Option<Seq<u8>> {
    match r {
        Some(v) => Some(v@),
        None => None,
    }
}

/// Relies on bs58::decode(..).into_vec(): `Ok` with the decoded bytes, or an
/// error for a character outside the alphabet.
#[verifier::external_body]
fn bs58_decode(text: &str) -> (r: Option<Vec<u8>>)
    ensures
        bytes_view(r) == base58_decoding(text@),
{
    bs58::decode(text).into_vec().ok()
}

/// Relies on bs58::encode(..).into_string(): the base58 text of the bytes,
/// which decodes back to the same bytes.
#[verifier::external_body]
fn bs58_encode(bytes: &[u8]) -> (r: String)
    ensures
        r@ == base58_encoding(bytes@),
        base58_decoding(r@) == Some(bytes@),
{
    bs58::encode(bytes).into_string()
}

/// Relies on base64's `STANDARD` engine, `decode`: the decoded bytes, or an
/// error for a malformed text.
#[verifier::external_body]
fn b64_decode(text: &str) -> (r: Option<Vec<u8>>)
    ensures
        bytes_view(r) == base64_decoding(text@),
{
    base64::engine::general_purpose::STANDARD.decode(text).ok()
}

/// Relies on base64's `STANDARD` engine, `encode`: the padded base64 text of
/// the bytes, which decodes back to the same bytes.
#[verifier::external_body]
fn b64_encode(bytes: &[u8]) -> (r: String)
    ensures
        r@ == base64_encoding(bytes@),
        base64_decoding(r@) == Some(bytes@),
{
    base64::engine::general_purpose::STANDARD.encode(bytes)
}

/// Decodes a base58 text; `None` for malformed input.
pub fn decode_base58(text: &str) -> (r: Option<Vec<u8>>)
    ensures
        bytes_view(r) == base58_decoding(text@),
{
    bs58_decode(text)
}

/// Encodes bytes as base58 text. Decoding the result gives the bytes back.
pub fn encode_base58(bytes: &[u8]) -> (r: String)
    ensures
        r@ == base58_encoding(bytes@),
        base58_decoding(r@) == Some(bytes@),
{
    bs58_encode(bytes)
}

/// Decodes a padded standard base64 text; `None` for malformed input.
pub fn decode_base64(text: &str) -> (r: Option<Vec<u8>>)
    ensures
        bytes_view(r) == base64_decoding(text@),
{
    b64_decode(text)
}

/// Encodes bytes as padded standard base64 text. Decoding the result gives
/// the bytes back.
pub fn encode_base64(bytes: &[u8]) -> (r: String)
    ensures
        r@ == base64_encoding(bytes@),
        base64_decoding(r@) == Some(bytes@),
{
    b64_encode(bytes)
}

} // verus!
