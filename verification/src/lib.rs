//! Block and transaction validation for an account-chain ledger node,
//! together with the hashing, signature and encoding primitives it rests on.

pub mod crypto;
pub mod encoding;
pub mod p2p;
pub mod proto;
pub mod storage;
pub mod validation;
