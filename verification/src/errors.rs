//! The closed error taxonomy of the API and the translation of remote
//! failures into it. Every remote-call error is converted at the dispatcher
//! boundary into exactly one `ServiceError`; raw remote error text never
//! reaches the caller.

use crate::models::ErrorResponse;
use crate::text::{ends_with_str, has_prefix, has_suffix, starts_with_str, str_eq};
use vstd::prelude::*;

verus! {

/// The closed set of API errors, each carrying a fixed message and status.
#[derive(Debug, Clone, Copy, PartialEq, Eq, Structural)]
pub enum ServiceError {
    /// Empty, forbidden or unknown unit name. Deliberately one kind: the
    /// allowlist must not leak which names exist.
    InvalidUnit,
    /// Anything unexpected, transport failures included.
    Unexpected,
    /// Missing or rejected credential.
    Unauthorized,
}

/// What the gateway reads from a failed remote call: either a named error
/// reply with an optional message, or any other failure. The surrounding
/// application fills this in from the remote client's error value.
#[derive(Debug, Clone)]
pub enum RemoteError {
    /// The remote peer answered the call with an error reply.
    Method { name: String, message: Option<String> },
    /// Every other failure: transport, serialization, connection loss.
    Other,
}

/// The two remote signatures that mean "this unit name is bad": the unit
/// manager's "no such unit" error, or an argument-validation error whose
/// message matches `Unit name ... is not valid.`.
pub open spec fn spec_is_invalid_unit(name: Seq<char>, msg: Seq<char>) -> bool {
    name == "org.freedesktop.systemd1.NoSuchUnit"@ || (name
        == "org.freedesktop.DBus.Error.InvalidArgs"@ && has_prefix(msg, "Unit name"@)
        && has_suffix(msg, "is not valid."@))
}

/// Structural match on a remote error's name plus message text.
pub fn is_invalid_unit(name: &str, msg: &str) -> (r: bool)
    ensures
        r == spec_is_invalid_unit(name@, msg@),
{
    str_eq(name, "org.freedesktop.systemd1.NoSuchUnit") || (str_eq(
        name,
        "org.freedesktop.DBus.Error.InvalidArgs",
    ) && starts_with_str(msg, "Unit name") && ends_with_str(msg, "is not valid."))
}

/// Where each remote failure lands: the "no such unit" error by its name
/// alone — message or none — and the argument-validation signature with its
/// message text map to `InvalidUnit`, and nothing else does; everything
/// else is `Unexpected`.
pub open spec fn spec_translate(e: RemoteError) -> ServiceError {
    match e {
        RemoteError::Method { name, message } => {
            let bad_name = match message {
                Some(m) => spec_is_invalid_unit(name@, m@),
                None => name@ == "org.freedesktop.systemd1.NoSuchUnit"@,
            };
            if bad_name {
                ServiceError::InvalidUnit
            } else {
                ServiceError::Unexpected
            }
        },
        RemoteError::Other => ServiceError::Unexpected,
    }
}

impl From<RemoteError> for ServiceError {
    fn from(e: RemoteError) -> ServiceError {
        match e {
            RemoteError::Method { name, message } => {
                let bad_name = match message {
                    Some(m) => is_invalid_unit(name.as_str(), m.as_str()),
                    None => str_eq(name.as_str(), "org.freedesktop.systemd1.NoSuchUnit"),
                };
                if bad_name {
                    ServiceError::InvalidUnit
                } else {
                    ServiceError::Unexpected
                }
            },
            RemoteError::Other => ServiceError::Unexpected,
        }
    }
}

impl vstd::std_specs::convert::FromSpecImpl<RemoteError> for ServiceError {
    open spec fn obeys_from_spec() -> bool {
        true
    }

    open spec fn from_spec(e: RemoteError) -> ServiceError {
        spec_translate(e)
    }
}

impl ServiceError {
    /// The HTTP status each kind is rendered with.
    pub open spec fn spec_status_code(self) -> u16 {
        match self {
            ServiceError::InvalidUnit => 400,
            ServiceError::Unexpected => 500,
            ServiceError::Unauthorized => 401,
        }
    }

    /// The short fixed message each kind is rendered with.
    pub open spec fn spec_message(self) -> Seq<char> {
        match self {
            ServiceError::InvalidUnit => "Invalid unit name"@,
            ServiceError::Unexpected => "The server encountered an unexpected error"@,
            ServiceError::Unauthorized => "Invalid authorization token"@,
        }
    }

    pub fn status_code(&self) -> (r: u16)
        ensures
            r == self.spec_status_code(),
    {
        match self {
            ServiceError::InvalidUnit => 400,
            ServiceError::Unexpected => 500,
            ServiceError::Unauthorized => 401,
        }
    }

    pub fn message(&self) -> (r: String)
        ensures
            r@ == self.spec_message(),
    {
        match self {
            ServiceError::InvalidUnit => "Invalid unit name".to_owned(),
            ServiceError::Unexpected => "The server encountered an unexpected error".to_owned(),
            ServiceError::Unauthorized => "Invalid authorization token".to_owned(),
        }
    }

    /// The full rendering of a failure: its status code and its body.
    pub fn response_parts(&self) -> (r: (u16, ErrorResponse))
        ensures
            r.0 == self.spec_status_code(),
            r.1.error@ == self.spec_message(),
    {
        (self.status_code(), ErrorResponse { error: self.message() })
    }
}

} // verus!
