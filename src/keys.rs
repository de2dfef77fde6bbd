//! Ed25519 key pairs, signatures and their verification.
use solana_sdk::signature::{Keypair, Signature, Signer};
use vstd::prelude::*;

verus! {

/// Byte length of a key pair: the 32-byte secret seed, then the public key.
pub const KEYPAIR_LEN: usize = 64;

/// Byte length of a public identifier.
pub const PUBKEY_LEN: usize = 32;

/// Byte length of a signature.
pub const SIGNATURE_LEN: usize = 64;

/// Whether 64 key-pair bytes hold a secret seed followed by the public key
/// derived from it.
pub uninterp spec fn keypair_bytes_valid(bytes: Seq<u8>) -> bool;

/// The Ed25519 signature that a key pair makes over a message.
pub uninterp spec fn ed25519_signature(keypair: Seq<u8>, message: Seq<u8>) -> Seq<u8>;

/// Whether a signature over a message verifies under a public key.
pub uninterp spec fn signature_verifies(pubkey: Seq<u8>, signature: Seq<u8>, message: Seq<u8>) -> bool;

/// The public key held in the second half of key-pair bytes.
pub open spec fn public_half(keypair: Seq<u8>) -> Seq<u8> {
    keypair.subrange(PUBKEY_LEN as int, KEYPAIR_LEN as int)
}

/// Relies on `Keypair::new` (a seed from the system's secure random source)
/// and `Keypair::to_bytes`: seed and derived public key, 64 bytes that
/// `Keypair::try_from` accepts.
#[verifier::external_body]
pub(crate) fn random_keypair_bytes() -> (r: Vec<u8>)
    ensures
        r@.len() == KEYPAIR_LEN,
        keypair_bytes_valid(r@),
{
    Keypair::new().to_bytes().to_vec()
}

/// Relies on `Keypair::try_from(&[u8])`, which accepts exactly the valid
/// key-pair bytes, and `Signer::sign_message`, whose Ed25519 signature
/// verifies under the pair's public key.
#[verifier::external_body]
pub(crate) fn sign_with_keypair(keypair: &[u8], message: &[u8]) -> (r: Option<Vec<u8>>)
    requires
        keypair@.len() == KEYPAIR_LEN,
    ensures
        r is Some <==> keypair_bytes_valid(keypair@),
        r matches Some(sig) ==> sig@ == ed25519_signature(keypair@, message@),
        r matches Some(sig) ==> sig@.len() == SIGNATURE_LEN,
        r matches Some(sig) ==> signature_verifies(public_half(keypair@), sig@, message@),
{
    match Keypair::try_from(keypair) {
        Ok(pair) => Some(pair.sign_message(message).as_ref().to_vec()),
        Err(_) => None,
    }
}

/// Relies on `Signature::verify`: strict Ed25519 verification, `false` for
/// a public key that is not a curve point.
#[verifier::external_body]
pub(crate) fn ed25519_verify(pubkey: &[u8], signature: &[u8], message: &[u8]) -> (r: bool)
    requires
        signature@.len() == SIGNATURE_LEN,
    ensures
        r == signature_verifies(pubkey@, signature@, message@),
{
    match Signature::try_from(signature) {
        Ok(sig) => sig.verify(pubkey, message),
        Err(_) => false,
    }
}

/// Copies the public key out of key-pair bytes.
pub fn public_key_of(keypair: &[u8]) -> (r: Vec<u8>)
    requires
        keypair@.len() == KEYPAIR_LEN,
    ensures
        r@ == public_half(keypair@),
        r@.len() == PUBKEY_LEN,
{
    let mut r: Vec<u8> = Vec::with_capacity(PUBKEY_LEN);
    let mut i: usize = PUBKEY_LEN;
    while i < KEYPAIR_LEN
        invariant
            keypair@.len() == KEYPAIR_LEN,
            PUBKEY_LEN <= i <= KEYPAIR_LEN,
            r@ == keypair@.subrange(PUBKEY_LEN as int, i as int),
        decreases KEYPAIR_LEN - i,
    {
        r.push(keypair[i]);
        i = i + 1;
    }
    r
}

} // verus!
