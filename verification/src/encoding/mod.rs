//! Byte-level helpers and the derivation of account identifiers.

pub mod account;
pub mod bytes;
