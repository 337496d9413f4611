//! The failure taxonomy of the library.
//!
//! Every failure is a value of [`Error`]; nothing in the library panics and
//! nothing is retried.  The [`Kind`] tells a caller whether the bearer token
//! was rejected, the token response could not be interpreted, a URL or body
//! could not be parsed, the server answered with a non-success status, or an
//! expected response header was absent.

use vstd::prelude::*;

verus! {

/// The kinds of failure a call into the platform can produce.
#[derive(Debug, Clone)]
pub enum Kind {
    /// The server rejected the bearer token (HTTP 401).
    AuthExpiredToken,
    /// The token exchange succeeded at the transport level, but its response
    /// could not be interpreted.
    Auth(String),
    /// A URL or JSON body could not be parsed or serialized.
    Parse(String),
    /// The server returned a non-success, non-401 status; the raw response
    /// body is preserved for diagnostics.
    BadRequest(String),
    /// An expected response header was absent when domain logic needed it.
    MissingHeader { header: String, msg: String },
    /// Catch-all for transport-layer failures not otherwise classified.
    Other(String),
}

/// An error returned by the library.  Carries its [`Kind`] and nothing else;
/// in particular it never carries credentials.
#[derive(Debug)]
pub struct Error {
    pub kind: Kind,
}

/// The human-readable message of each failure kind, as an application
/// wrapping the library would print it.
pub open spec fn kind_message(k: Kind) -> Seq<char> {
    match k {
        Kind::AuthExpiredToken => "expired auth token"@,
        Kind::Auth(msg) => "auth: "@ + msg@,
        Kind::Parse(msg) => "json: "@ + msg@,
        Kind::BadRequest(msg) => "bad request: "@ + msg@,
        Kind::MissingHeader { header, msg } => "missing header '"@ + header@ + "': "@ + msg@,
        Kind::Other(msg) => msg@,
    }
}

impl Error {
    pub(crate) fn new(kind: Kind) -> (r: Self)
        ensures
            r.kind == kind,
    {
        Self { kind }
    }

    /// Renders the error as its human-readable message.
    pub fn message(&self) -> (r: String)
        ensures
            r@ == kind_message(self.kind),
    {
        match &self.kind {
            Kind::AuthExpiredToken => String::from_str("expired auth token"),
            Kind::Auth(msg) => {
                let mut s = String::from_str("auth: ");
                s.append(msg.as_str());
                s
            },
            Kind::Parse(msg) => {
                let mut s = String::from_str("json: ");
                s.append(msg.as_str());
                s
            },
            Kind::BadRequest(msg) => {
                let mut s = String::from_str("bad request: ");
                s.append(msg.as_str());
                s
            },
            Kind::MissingHeader { header, msg } => {
                let mut s = String::from_str("missing header '");
                s.append(header.as_str());
                s.append("': ");
                s.append(msg.as_str());
                s
            },
            Kind::Other(msg) => msg.clone(),
        }
    }
}

} // verus!
