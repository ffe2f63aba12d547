//! SHA3-256 digests.

use sha3::{Digest, Sha3_256};
use vstd::prelude::*;
use vstd::slice::slice_to_vec;

verus! {

/// Width in bytes of a SHA3-256 digest.
pub const DIGEST_LENGTH: usize = 32;

/// The SHA3-256 digest of a byte string, as the `sha3` crate computes it.
pub uninterp spec fn sha3_256(data: Seq<u8>) -> Seq<u8>;

/// Runs `sha3::Sha3_256` (`new`, `update`, `finalize`) over `data`.
///
/// Trusted: the returned array is the SHA3-256 digest of exactly the bytes of
/// `data`, which is a function of those bytes alone.
#[verifier::external_body]
pub(crate) fn sha3_256_digest(data: &[u8]) -> (digest: [u8; 32])
    ensures
        digest@ == sha3_256(data@),
{
    let mut hasher = Sha3_256::new();
    hasher.update(data);
    hasher.finalize().into()
}

/// Hashes `data` with SHA3-256 and returns the 32 digest bytes.
pub fn sha3(data: &[u8]) -> (digest: Vec<u8>)
    ensures
        digest@ == sha3_256(data@),
        digest@.len() == DIGEST_LENGTH,
{
    let digest = sha3_256_digest(data);
    slice_to_vec(digest.as_slice())
}

} // verus!
