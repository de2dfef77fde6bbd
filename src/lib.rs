//! Blockchain-account utilities behind a small HTTP service: key pairs,
//! token-program instructions, message signing and verification, with the
//! request validation and response envelope that every endpoint shares.
use vstd::prelude::*;

pub mod codec;
pub mod keys;
pub mod token;
pub mod validate;
pub mod service;

verus! {

} // verus!
