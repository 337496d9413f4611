//! Credential management and the bearer-token exchange.
//!
//! A [`ClientSecret`], [`ClientId`] and [`AccountId`] are plain, immutable
//! holders of the three credential strings; [`Auth`] bundles them.  The token
//! exchange itself is a network round trip that an embedding application
//! performs: [`Auth::token_request`] says exactly what must be sent to the
//! OAuth endpoint, and [`Auth::interpret_token_response`] turns the returned
//! body into an [`AccessToken`] or an authentication error.

use vstd::prelude::*;

use crate::error::{Error, Kind};

verus! {

/// The OAuth client secret.  Constructed from a plain string; no validation
/// is performed (an empty secret simply fails authentication later).
pub struct ClientSecret(String);

/// The OAuth client id.  Constructed from a plain string; no validation is
/// performed.
pub struct ClientId(String);

/// An opaque bearer token, valid for one request in this design.
#[derive(Debug)]
pub struct AccessToken(String);

/// The account id under which every request path is scoped.
#[derive(Clone, Debug)]
pub struct AccountId(String);

impl View for ClientSecret {
    type V = Seq<char>;

    closed spec fn view(&self) -> Seq<char> {
        self.0@
    }
}

impl View for ClientId {
    type V = Seq<char>;

    closed spec fn view(&self) -> Seq<char> {
        self.0@
    }
}

impl View for AccessToken {
    type V = Seq<char>;

    closed spec fn view(&self) -> Seq<char> {
        self.0@
    }
}

impl View for AccountId {
    type V = Seq<char>;

    closed spec fn view(&self) -> Seq<char> {
        self.0@
    }
}

impl ClientSecret {
    /// Wraps the secret; never fails, never alters the string.
    pub fn new(secret: String) -> (r: Self)
        ensures
            r@ == secret@,
    {
        Self(secret)
    }

    pub fn secret(&self) -> (r: &String)
        ensures
            r@ == self@,
    {
        &self.0
    }
}

impl ClientId {
    /// Wraps the id; never fails, never alters the string.
    pub fn new(id: String) -> (r: Self)
        ensures
            r@ == id@,
    {
        Self(id)
    }

    pub fn id(&self) -> (r: &String)
        ensures
            r@ == self@,
    {
        &self.0
    }
}

impl AccessToken {
    /// Wraps the token string; never fails, never alters the string.
    pub fn new(access_token: String) -> (r: Self)
        ensures
            r@ == access_token@,
    {
        Self(access_token)
    }

    pub fn token(&self) -> (r: &str)
        ensures
            r@ == self@,
    {
        &self.0
    }
}

impl AccountId {
    /// Wraps the account id; never fails, never alters the string.
    pub fn new(id: String) -> (r: Self)
        ensures
            r@ == id@,
    {
        Self(id)
    }

    pub fn as_str(&self) -> (r: &str)
        ensures
            r@ == self@,
    {
        &self.0
    }
}

/// The mathematical content of an [`Auth`]: the three credential strings.
pub struct AuthModel {
    pub client_secret: Seq<char>,
    pub client_id: Seq<char>,
    pub account_id: Seq<char>,
}

/// The credential store: client secret, client id and account id, immutable
/// once constructed.
pub struct Auth {
    client_secret: ClientSecret,
    client_id: ClientId,
    account_id: AccountId,
}

impl View for Auth {
    type V = AuthModel;

    closed spec fn view(&self) -> AuthModel {
        AuthModel {
            client_secret: self.client_secret@,
            client_id: self.client_id@,
            account_id: self.account_id@,
        }
    }
}

/// The fixed OAuth token endpoint.
pub open spec fn spec_token_url() -> Seq<char> {
    "https://login.flowmailer.net/oauth/token"@
}

/// What the token exchange must send: a POST of `form` to `url`.
pub struct TokenRequest {
    pub url: String,
    pub form: Vec<(String, String)>,
}

/// The outcome of the token exchange as the transport saw it: either the
/// POST itself failed, or a response body came back.
pub enum TokenOutcome {
    /// The POST to the token endpoint failed at the network level.
    Failure(String),
    /// A response arrived; its body text.
    Body(String),
}

/// The `access_token` field of a JSON body: `Some` exactly when the body is
/// a JSON document whose `access_token` field is a string.  Stands for what
/// `serde_json` extracts; no contract states its value on given bodies.
pub uninterp spec fn access_token_of(body: Seq<char>) -> Option<Seq<char>>;

/// Relies on `serde_json::from_str` and `serde_json::Value::{get, as_str}`:
/// parses the body as JSON and extracts its `access_token` string field,
/// a function of the body text alone.  The error text is diagnostic only.
#[verifier::external_body]
fn extract_access_token(body: &str) -> (r: Result<String, String>)
    ensures
        r is Ok <==> access_token_of(body@) is Some,
        r matches Ok(t) ==> access_token_of(body@) == Some(t@),
{
    match serde_json::from_str::<serde_json::Value>(body) {
        Ok(v) => match v.get("access_token") {
            Some(t) => match t.as_str() {
                Some(s) => Ok(s.to_string()),
                None => Err("missing string field 'access_token'".to_string()),
            },
            None => Err("missing string field 'access_token'".to_string()),
        },
        Err(e) => Err(e.to_string()),
    }
}

impl Auth {
    /// Bundles the three credentials.  Never fails and never alters them.
    pub fn new(client_secret: ClientSecret, client_id: ClientId, account_id: AccountId) -> (r:
        Self)
        ensures
            r@.client_secret == client_secret@,
            r@.client_id == client_id@,
            r@.account_id == account_id@,
    {
        let auth = Self { client_secret, client_id, account_id };
        auth
    }

    pub fn account_id(&self) -> (r: &AccountId)
        ensures
            r@ == self@.account_id,
    {
        &self.account_id
    }

    /// The client-credentials exchange to perform: a POST to the fixed OAuth
    /// endpoint with exactly the four form fields `client_id`,
    /// `client_secret`, `grant_type=client_credentials` and `scope=api`,
    /// in that order.
    pub fn token_request(&self) -> (r: TokenRequest)
        ensures
            r.url@ == spec_token_url(),
            r.form@.len() == 4,
            r.form@[0].0@ == "client_id"@ && r.form@[0].1@ == self@.client_id,
            r.form@[1].0@ == "client_secret"@ && r.form@[1].1@ == self@.client_secret,
            r.form@[2].0@ == "grant_type"@ && r.form@[2].1@ == "client_credentials"@,
            r.form@[3].0@ == "scope"@ && r.form@[3].1@ == "api"@,
    {
        let mut form: Vec<(String, String)> = Vec::new();
        form.push((String::from_str("client_id"), self.client_id.0.clone()));
        form.push((String::from_str("client_secret"), self.client_secret.0.clone()));
        form.push((String::from_str("grant_type"), String::from_str("client_credentials")));
        form.push((String::from_str("scope"), String::from_str("api")));
        TokenRequest { url: String::from_str("https://login.flowmailer.net/oauth/token"), form }
    }

    /// Interprets the token endpoint's response body: the bearer token when
    /// the body is a JSON document with a string `access_token` field, and
    /// an `Auth` error otherwise.
    pub fn interpret_token_response(body: &str) -> (r: Result<AccessToken, Error>)
        ensures
            r is Ok <==> access_token_of(body@) is Some,
            r matches Ok(t) ==> Some(t@) == access_token_of(body@),
            r matches Err(e) ==> (e.kind matches Kind::Auth(m) && exists|d: Seq<char>|
                m@ == "failed to parse response json: "@ + d),
    {
        match extract_access_token(body) {
            Ok(token) => Ok(AccessToken::new(token)),
            Err(detail) => {
                let mut m = String::from_str("failed to parse response json: ");
                m.append(detail.as_str());
                proof {
                    assert(m@ == "failed to parse response json: "@ + detail@);
                }
                Err(Error::new(Kind::Auth(m)))
            },
        }
    }
}

} // verus!
