//! A client library for the Flowmailer transactional-messaging REST API.
//!
//! The heart of the library is the authenticated request pipeline: a
//! credential store ([`Auth`]), the bearer-token exchange with the OAuth
//! endpoint, account-scoped URL construction with matrix parameters, the
//! fixed headers every request carries, the hand-written JSON body encoding,
//! and the classification of every transport outcome into a typed result.
//! Each of those decisions is a function with a contract.
//!
//! The network itself stays outside: an embedding application owns the HTTP
//! transport, performs the two round trips of each request (authenticate,
//! then dispatch), and feeds what came back into the pipeline as plain
//! values.  The resource records ([`resources`]) are plain data shapes.

use vstd::prelude::*;

pub mod auth;
pub mod client;
pub mod encode;
pub mod error;
pub mod mail;
pub mod request;
pub mod resources;
pub mod rest_api;
pub mod template;
pub mod ty;

pub use auth::Auth;
pub use client::Client;
pub use error::Error;
pub use error::Kind;
pub use mail::MailAddress;
pub use mail::MailBuilder;
pub use template::Template;

verus! {

} // verus!
