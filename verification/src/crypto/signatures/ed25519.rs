//! Ed25519 signature verification.

use ed25519_dalek::{Signature, Verifier, VerifyingKey};
use vstd::prelude::*;

verus! {

/// Why a signature was not accepted.
#[derive(Clone, Copy, Debug, PartialEq, Eq)]
pub enum SignatureError {
    /// The key or the signature is malformed, or the signature is not one
    /// that the key's owner made over the message.
    InvalidSignature,
}

/// Whether `ed25519_dalek` accepts `signature` as made over `message` by the
/// owner of `public_key`.
pub uninterp spec fn ed25519_valid(message: Seq<u8>, public_key: Seq<u8>, signature: Seq<u8>) -> bool;

/// Calls `ed25519_dalek::VerifyingKey::verify` with the key and the signature
/// parsed from their bytes (`VerifyingKey::try_from`, `Signature::from_slice`).
///
/// Trusted: the answer is a function of the three byte strings alone. A key or
/// a signature that does not parse counts as not valid.
#[verifier::external_body]
fn ed25519_verify(message: &[u8], public_key: &[u8], signature: &[u8]) -> (valid: bool)
    ensures
        valid == ed25519_valid(message@, public_key@, signature@),
{
    let Ok(key) = VerifyingKey::try_from(public_key) else {
        return false;
    };
    let Ok(signature) = Signature::from_slice(signature) else {
        return false;
    };
    key.verify(message, &signature).is_ok()
}

/// Checks that `signature` was made over `data` with the secret key that
/// belongs to `public_key`.
pub fn verify_signature(data: &[u8], public_key: &[u8], signature: &[u8]) -> (result: Result<
    (),
    SignatureError,
>)
    ensures
        result is Ok <==> ed25519_valid(data@, public_key@, signature@),
{
    if ed25519_verify(data, public_key, signature) {
        Ok(())
    } else {
        Err(SignatureError::InvalidSignature)
    }
}

} // verus!
