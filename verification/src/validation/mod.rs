//! Deciding whether a candidate block may be appended to its account's chain.

pub mod block;
pub mod laws;
