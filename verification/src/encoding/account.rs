//! Account identifiers.

use crate::crypto::hash::{sha3_256, sha3_256_digest};
use crate::proto::api::AccountID;
use vstd::prelude::*;

verus! {

/// Width in bytes of an account identifier.
pub const ACCOUNT_ID_LENGTH: usize = 24;

/// The identifier of the account that `public_key` controls: the first 24
/// bytes of the key's SHA3-256 digest.
pub open spec fn account_address(public_key: Seq<u8>) -> Seq<u8> {
    sha3_256(public_key).subrange(0, ACCOUNT_ID_LENGTH as int)
}

/// Cuts an account identifier out of the digest of a public key: its first
/// 24 bytes.
pub fn account_from_digest(digest: &[u8; 32]) -> (account: AccountID)
    ensures
        account@ == digest@.subrange(0, ACCOUNT_ID_LENGTH as int),
{
    let mut account: AccountID = [0u8; 24];
    let mut i: usize = 0;
    while i < ACCOUNT_ID_LENGTH
        invariant
            i <= ACCOUNT_ID_LENGTH,
            account@.subrange(0, i as int) == digest@.subrange(0, i as int),
        decreases ACCOUNT_ID_LENGTH - i,
    {
        account[i] = digest[i];
        assert(account@.subrange(0, i + 1) == digest@.subrange(0, i + 1));
        i = i + 1;
    }
    assert(account@.subrange(0, ACCOUNT_ID_LENGTH as int) == account@);
    account
}

/// Derives the identifier of the account that `public_key` controls. The
/// derivation is defined for every byte string.
pub fn generate_account_address(public_key: &[u8]) -> (account: AccountID)
    ensures
        account@ == account_address(public_key@),
{
    let digest = sha3_256_digest(public_key);
    account_from_digest(&digest)
}

} // verus!
