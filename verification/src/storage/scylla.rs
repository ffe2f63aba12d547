//! The handle of the Scylla storage backend.

use vstd::prelude::*;

verus! {

/// A session of the `scylla` driver, carried through as it is.
#[verifier::external_type_specification]
#[verifier::external_body]
pub struct ExSession(scylla::client::session::Session);

/// The Scylla backend: it holds the driver's session once one is open.
pub struct Scylla {
    pub session: Option<scylla::client::session::Session>,
}

impl Scylla {
    /// A backend that has no session yet.
    pub fn new() -> (store: Self)
        ensures
            store.session is None,
    {
        Self { session: None }
    }
}

impl Default for Scylla {
    fn default() -> (store: Self)
        ensures
            store.session is None,
    {
        Self::new()
    }
}

} // verus!
