//! The shared gateway context: the optional parsed credential hash and the
//! optional unit allowlist, bundled once at startup and shared by every
//! concurrent handler. The remote connection and the unit-manager client it
//! also travels with live in the surrounding application, which carries this
//! context alongside them.

use crate::auth::{phc_matches, CredentialHash};
use crate::errors::ServiceError;
use vstd::prelude::*;

verus! {

/// Immutable after construction; cloned cheaply into every handler.
#[derive(Clone)]
pub struct AppState {
    password_hash: Option<CredentialHash>,
    allowed_services: Option<Vec<String>>,
}

impl AppState {
    /// The configured credential hash; absence means auth is disabled.
    pub closed spec fn spec_hash(self) -> Option<CredentialHash> {
        self.password_hash
    }

    /// The configured allowlist; absence means every name is allowed.
    pub closed spec fn spec_allowlist(self) -> Option<Vec<String>> {
        self.allowed_services
    }

    pub fn new(password_hash: Option<CredentialHash>, allowed_services: Option<Vec<String>>) -> (r:
        AppState)
        ensures
            r.spec_hash() == password_hash,
            r.spec_allowlist() == allowed_services,
    {
        AppState { password_hash, allowed_services }
    }

    pub fn allowlist(&self) -> (r: &Option<Vec<String>>)
        ensures
            *r == self.spec_allowlist(),
    {
        &self.allowed_services
    }

    pub open spec fn spec_has_auth(self) -> bool {
        self.spec_hash() is Some
    }

    pub fn has_auth(&self) -> (r: bool)
        ensures
            r == self.spec_has_auth(),
    {
        self.password_hash.is_some()
    }

    /// Which tokens are authorized: everything when no hash is configured,
    /// otherwise exactly the candidates some supported algorithm accepts.
    pub open spec fn spec_token_authorized(self, token: Seq<char>) -> bool {
        match self.spec_hash() {
            None => true,
            Some(h) => phc_matches(h.spec_text(), token),
        }
    }

    /// Verifies a bearer token against the configured hash; skipped — always
    /// authorized — when none is configured.
    pub fn verify_token(&self, token: &str) -> (r: Result<(), ServiceError>)
        ensures
            r is Ok <==> self.spec_token_authorized(token@),
            r is Err ==> r == Err::<(), ServiceError>(ServiceError::Unauthorized),
    {
        match &self.password_hash {
            None => Ok(()),
            Some(h) => if h.verify_candidate(token) {
                Ok(())
            } else {
                Err(ServiceError::Unauthorized)
            },
        }
    }
}

} // verus!
