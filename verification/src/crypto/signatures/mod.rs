//! Signature schemes.

pub mod ed25519;
