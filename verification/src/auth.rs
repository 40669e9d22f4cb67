//! Credential verification and the authorization decision taken in front of
//! every protected route: parse the configured hash once, extract the bearer
//! token from the authorization header, and try the fixed set of supported
//! hashing algorithms against the stored hash.

use crate::config::ConfigError;
use crate::errors::ServiceError;
use crate::state::AppState;
use crate::text::{seq_eq_ci, str_eq_ci, trim_leading_ws, trim_start_ws};
use password_hash::PasswordVerifier;
use vstd::prelude::*;
use vstd::string::StrSliceExecFns;

verus! {

/// Whether a string is a well-formed PHC-format tagged hash.
pub uninterp spec fn phc_well_formed(s: Seq<char>) -> bool;

/// Whether the Argon2 family accepts the candidate against the stored hash.
pub uninterp spec fn argon2_accepts(hash: Seq<char>, candidate: Seq<char>) -> bool;

/// Whether PBKDF2 accepts the candidate against the stored hash.
pub uninterp spec fn pbkdf2_accepts(hash: Seq<char>, candidate: Seq<char>) -> bool;

/// Whether scrypt accepts the candidate against the stored hash.
pub uninterp spec fn scrypt_accepts(hash: Seq<char>, candidate: Seq<char>) -> bool;

/// A candidate is verified when one algorithm of the fixed supported set
/// accepts it against the stored hash; each algorithm recognizes its own
/// tag and rejects the others' hashes.
pub open spec fn phc_matches(hash: Seq<char>, candidate: Seq<char>) -> bool {
    argon2_accepts(hash, candidate) || pbkdf2_accepts(hash, candidate) || scrypt_accepts(
        hash,
        candidate,
    )
}

/// Relies on `password_hash::phc::PasswordHash::new`: whether a string
/// parses as a PHC-format hash depends on the string alone, and the empty
/// string is refused.
#[verifier::external_body]
fn phc_parse_ok(s: &str) -> (r: bool)
    ensures
        r == phc_well_formed(s@),
        s@.len() == 0 ==> !r,
{
    password_hash::phc::PasswordHash::new(s).is_ok()
}

/// Relies on `Argon2::verify_password` (via `password_hash::phc`): the
/// verdict recomputes the digest from the hash's own tag, salt and
/// parameters, so it depends on the hash text and the candidate alone.
#[verifier::external_body]
fn argon2_verify(hash: &str, candidate: &str) -> (r: bool)
    ensures
        r == argon2_accepts(hash@, candidate@),
{
    match password_hash::phc::PasswordHash::new(hash) {
        Ok(h) => argon2::Argon2::default().verify_password(candidate.as_bytes(), &h).is_ok(),
        Err(_) => false,
    }
}

/// Relies on `Pbkdf2::verify_password` (via `password_hash::phc`): the
/// verdict depends on the hash text and the candidate alone.
#[verifier::external_body]
fn pbkdf2_verify(hash: &str, candidate: &str) -> (r: bool)
    ensures
        r == pbkdf2_accepts(hash@, candidate@),
{
    match password_hash::phc::PasswordHash::new(hash) {
        Ok(h) => pbkdf2::Pbkdf2::default().verify_password(candidate.as_bytes(), &h).is_ok(),
        Err(_) => false,
    }
}

/// Relies on `Scrypt::verify_password` (via `password_hash::phc`): the
/// verdict depends on the hash text and the candidate alone.
#[verifier::external_body]
fn scrypt_verify(hash: &str, candidate: &str) -> (r: bool)
    ensures
        r == scrypt_accepts(hash@, candidate@),
{
    match password_hash::phc::PasswordHash::new(hash) {
        Ok(h) => scrypt::Scrypt::default().verify_password(candidate.as_bytes(), &h).is_ok(),
        Err(_) => false,
    }
}

/// An algorithm-tagged credential hash in its canonical textual encoding,
/// parsed once at startup; immutable and never logged.
#[derive(Clone)]
pub struct CredentialHash {
    text: String,
}

impl CredentialHash {
    /// The hash's textual encoding.
    pub closed spec fn spec_text(self) -> Seq<char> {
        self.text@
    }

    /// Every credential built by `parse_token_hash` is a well-formed
    /// PHC-format hash.
    pub open spec fn wf(self) -> bool {
        phc_well_formed(self.spec_text())
    }

    /// Tries the fixed set of supported algorithms against the stored hash.
    pub fn verify_candidate(&self, candidate: &str) -> (r: bool)
        ensures
            r == phc_matches(self.spec_text(), candidate@),
    {
        argon2_verify(self.text.as_str(), candidate) || pbkdf2_verify(
            self.text.as_str(),
            candidate,
        ) || scrypt_verify(self.text.as_str(), candidate)
    }
}

/// Parses the configured credential text, failing exactly when it is not a
/// well-formed tagged hash. Any failure here is fatal at startup.
pub fn parse_token_hash(auth_token: &str) -> (r: Result<CredentialHash, ConfigError>)
    ensures
        match r {
            Ok(h) => phc_well_formed(auth_token@) && h.wf() && h.spec_text() == auth_token@,
            Err(e) => !phc_well_formed(auth_token@) && e == ConfigError::InvalidCredential,
        },
{
    if phc_parse_ok(auth_token) {
        Ok(CredentialHash { text: auth_token.to_owned() })
    } else {
        Err(ConfigError::InvalidCredential)
    }
}

/// The token of a well-formed bearer authorization header: the scheme
/// `Bearer` matched without regard to ASCII case, one space, then the
/// token with its leading whitespace dropped — exactly what the standard
/// header form carries.
pub open spec fn spec_bearer_token(h: Seq<char>) -> Option<Seq<char>> {
    if h.len() > 6 && seq_eq_ci(h.subrange(0, 6), "Bearer"@) && h[6] == ' ' {
        Some(trim_leading_ws(h.subrange(7, h.len() as int)))
    } else {
        None
    }
}

/// Extracts the bearer token from an authorization header value.
pub fn parse_bearer(header: &str) -> (r: Option<String>)
    ensures
        match r {
            Some(t) => spec_bearer_token(header@) == Some(t@),
            None => spec_bearer_token(header@) is None,
        },
{
    let len = header.unicode_len();
    if len < 7 {
        return None;
    }
    let scheme = header.substring_char(0, 6);
    if !str_eq_ci(scheme, "Bearer") {
        return None;
    }
    if header.get_char(6) != ' ' {
        return None;
    }
    let tail = header.substring_char(7, len);
    Some(trim_start_ws(tail))
}

/// The authorization decision in front of every protected route. With no
/// credential configured every request passes. With one configured, a
/// request passes exactly when it carries a well-formed bearer header whose
/// token a supported algorithm accepts; a missing or malformed header is
/// rejected without invoking any verifier.
pub open spec fn spec_request_authorized(state: AppState, header: Option<Seq<char>>) -> bool {
    match state.spec_hash() {
        None => true,
        Some(h) => match header {
            None => false,
            Some(hv) => match spec_bearer_token(hv) {
                None => false,
                Some(tok) => phc_matches(h.spec_text(), tok),
            },
        },
    }
}

/// With a credential configured, a request that carries no authorization
/// header, or one whose header is not in the bearer form, is never
/// authorized — it is turned away before any verifier could run, since no
/// token even reaches one.
pub proof fn lemma_missing_or_malformed_header_unauthorized(
    state: AppState,
    header: Option<Seq<char>>,
)
    requires
        state.spec_has_auth(),
        match header {
            None => true,
            Some(h) => spec_bearer_token(h) is None,
        },
    ensures
        !spec_request_authorized(state, header),
{
}

/// Decides a protected request from the raw authorization header, `None`
/// when the request carries none. Every rejection is `Unauthorized`; the
/// downstream handler must run only on `Ok`.
pub fn authorize_request(state: &AppState, header: Option<&str>) -> (r: Result<(), ServiceError>)
    ensures
        r is Ok <==> spec_request_authorized(
            *state,
            match header {
                Some(h) => Some(h@),
                None => None,
            },
        ),
        r is Err ==> r == Err::<(), ServiceError>(ServiceError::Unauthorized),
{
    if !state.has_auth() {
        return Ok(());
    }
    match header {
        None => Err(ServiceError::Unauthorized),
        Some(h) => match parse_bearer(h) {
            None => Err(ServiceError::Unauthorized),
            Some(tok) => state.verify_token(tok.as_str()),
        },
    }
}

} // verus!
