//! Hashing, password and signature primitives.

pub mod hash;
pub mod password;
pub mod signatures;
