//! The ledger's data model and its canonical wire encoding.

pub mod api;
pub mod wire;
