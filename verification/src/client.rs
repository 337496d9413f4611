//! The long-lived client handle around the credential store.
//!
//! The client holds no mutable state, so one client can serve any number of
//! concurrent requests.  The network transport itself is opaque to the
//! library's logic: the embedding application owns the HTTP client and
//! performs the dispatch, feeding each outcome back into the pipeline.

use vstd::prelude::*;

use crate::auth::{Auth, AuthModel};

verus! {

/// The client: the credential store under which every request is made.
/// Shared read-only across requests; never mutated after construction.
pub struct Client {
    credentials: Auth,
}

impl View for Client {
    type V = AuthModel;

    closed spec fn view(&self) -> AuthModel {
        self.credentials@
    }
}

impl Client {
    /// Wraps the credentials.  Never fails and never alters them.
    pub fn new(credentials: Auth) -> (r: Self)
        ensures
            r@ == credentials@,
    {
        Self { credentials }
    }

    pub fn credentials(&self) -> (r: &Auth)
        ensures
            r@ == self@,
    {
        &self.credentials
    }
}

} // verus!
