//! The authenticated request pipeline.
//!
//! A [`RequestBuilder`] is a pure descriptor of one request: method, the
//! account-scoped URL with matrix parameters, and at most one body
//! attachment.  The pipeline proceeds in order: build the URL, exchange the
//! credentials for a bearer token, attach the token and the platform's fixed
//! headers, dispatch, and classify the outcome.  The network steps are
//! performed by the embedding application; every decision between them is
//! made here, with a contract.

use vstd::prelude::*;

use crate::auth::{access_token_of, AccessToken, Auth, TokenOutcome};
use crate::client::Client;
use crate::error::{Error, Kind};

verus! {

/// The request methods the client issues.
#[derive(Clone, Copy, PartialEq, Eq, Structural, Debug)]
pub enum Method {
    Get,
    Post,
}

/// The fixed base of every API URL.
pub open spec fn spec_base_url() -> Seq<char> {
    "https://api.flowmailer.net"@
}

/// The pinned `Host` header value.
pub open spec fn spec_api_host() -> Seq<char> {
    "api.flowmailer.net"@
}

/// The platform's versioned media type, sent as `Accept` and `Content-Type`.
pub open spec fn spec_media_type() -> Seq<char> {
    "application/vnd.flowmailer.v1.12+json;charset=UTF-8"@
}

/// `;k1=v1;k2=v2...` for the matrix parameters, in input order, without
/// reordering, deduplication or escaping.
pub open spec fn matrix_suffix<'a>(params: Seq<(&'a str, &'a str)>) -> Seq<char>
    decreases params.len(),
{
    if params.len() == 0 {
        Seq::empty()
    } else {
        matrix_suffix(params.drop_last()) + ";"@ + params.last().0@ + "="@ + params.last().1@
    }
}

/// The account-scoped request path: `{account}/{path}{;key=value}*`.
/// The account id is never omitted.
pub open spec fn spec_request_path<'a>(
    account: Seq<char>,
    path: Seq<char>,
    params: Seq<(&'a str, &'a str)>,
) -> Seq<char> {
    account + "/"@ + path + matrix_suffix(params)
}

/// The absolute request URL: the fixed base followed by the scoped path.
pub open spec fn spec_request_url<'a>(
    account: Seq<char>,
    path: Seq<char>,
    params: Seq<(&'a str, &'a str)>,
) -> Seq<char> {
    spec_base_url() + "/"@ + spec_request_path(account, path, params)
}

/// Law: appending one more matrix parameter appends exactly `;key=value` to
/// the suffix.  Parameters therefore appear in caller-supplied order.
pub proof fn lemma_matrix_suffix_push<'a>(
    params: Seq<(&'a str, &'a str)>,
    key: &'a str,
    value: &'a str,
)
    ensures
        matrix_suffix(params.push((key, value))) == matrix_suffix(params) + ";"@ + key@ + "="@
            + value@,
{
    let p = params.push((key, value));
    assert(p.drop_last() =~= params);
    assert(p.last() == (key, value));
}

/// The view of an optional text attachment.
pub open spec fn opt_text_view(o: Option<String>) -> Option<Seq<char>> {
    match o {
        Some(s) => Some(s@),
        None => None,
    }
}

/// The view of a list of key/value pairs.
pub open spec fn pairs_view(v: Seq<(String, String)>) -> Seq<(Seq<char>, Seq<char>)> {
    v.map_values(|p: (String, String)| (p.0@, p.1@))
}

/// The view of an optional list of key/value pairs.
pub open spec fn opt_pairs_view(o: Option<Vec<(String, String)>>) -> Option<
    Seq<(Seq<char>, Seq<char>)>,
> {
    match o {
        Some(v) => Some(pairs_view(v@)),
        None => None,
    }
}

/// The mathematical content of a request under construction.
pub struct RequestModel {
    pub method: Method,
    pub url: Seq<char>,
    pub body: Option<Seq<char>>,
    pub form: Option<Seq<(Seq<char>, Seq<char>)>>,
    pub query: Option<Seq<(Seq<char>, Seq<char>)>>,
}

/// A request under construction: immutable descriptor data, no transport.
pub struct RequestBuilder {
    method: Method,
    url: String,
    body: Option<String>,
    form: Option<Vec<(String, String)>>,
    query: Option<Vec<(String, String)>>,
}

impl View for RequestBuilder {
    type V = RequestModel;

    closed spec fn view(&self) -> RequestModel {
        RequestModel {
            method: self.method,
            url: self.url@,
            body: opt_text_view(self.body),
            form: opt_pairs_view(self.form),
            query: opt_pairs_view(self.query),
        }
    }
}

/// A fully prepared request: what the transport dispatches.  The fields are
/// plain values for the embedding application to copy into its HTTP client.
pub struct PreparedRequest {
    pub method: Method,
    pub url: String,
    /// Header pairs in order: `Authorization`, `Accept`, `Host`,
    /// `Content-Type`.
    pub headers: Vec<(String, String)>,
    pub body: Option<String>,
    pub form: Option<Vec<(String, String)>>,
    pub query: Option<Vec<(String, String)>>,
}

/// What attaching `token` to the descriptor `m` must yield: the descriptor
/// passes through unchanged, and exactly the four standard headers are
/// attached, the bearer token first.
pub open spec fn spec_authorized(m: RequestModel, token: Seq<char>, p: PreparedRequest) -> bool {
    &&& p.method == m.method
    &&& p.url@ == m.url
    &&& opt_text_view(p.body) == m.body
    &&& opt_pairs_view(p.form) == m.form
    &&& opt_pairs_view(p.query) == m.query
    &&& pairs_view(p.headers@) == seq![
        ("Authorization"@, "Bearer "@ + token),
        ("Accept"@, spec_media_type()),
        ("Host"@, spec_api_host()),
        ("Content-Type"@, spec_media_type()),
    ]
}

impl RequestBuilder {
    /// Starts a POST request to the account-scoped `path` with the given
    /// matrix parameters.
    pub fn post(client: &Client, path: &str, matrix_args: &[(&str, &str)]) -> (r: Result<
        Self,
        Error,
    >)
        ensures
            r matches Ok(b) && b@ == (RequestModel {
                method: Method::Post,
                url: spec_request_url(client@.account_id, path@, matrix_args@),
                body: None,
                form: None,
                query: None,
            }),
    {
        let url = match Self::create_url(client, path, matrix_args) {
            Ok(u) => u,
            Err(e) => {
                return Err(e);
            },
        };
        Ok(Self { method: Method::Post, url, body: None, form: None, query: None })
    }

    /// Starts a GET request to the account-scoped `path` with the given
    /// matrix parameters.
    pub fn get(client: &Client, path: &str, matrix_args: &[(&str, &str)]) -> (r: Result<
        Self,
        Error,
    >)
        ensures
            r matches Ok(b) && b@ == (RequestModel {
                method: Method::Get,
                url: spec_request_url(client@.account_id, path@, matrix_args@),
                body: None,
                form: None,
                query: None,
            }),
    {
        let url = match Self::create_url(client, path, matrix_args) {
            Ok(u) => u,
            Err(e) => {
                return Err(e);
            },
        };
        Ok(Self { method: Method::Get, url, body: None, form: None, query: None })
    }

    /// Attaches a raw body, replacing any earlier one.
    pub fn body(self, val: String) -> (r: Self)
        ensures
            r@.method == self@.method,
            r@.url == self@.url,
            r@.body == Some(val@),
            r@.form == self@.form,
            r@.query == self@.query,
    {
        Self { body: Some(val), ..self }
    }

    /// Attaches query parameters, replacing any earlier ones.
    pub fn query(self, val: Vec<(String, String)>) -> (r: Self)
        ensures
            r@.method == self@.method,
            r@.url == self@.url,
            r@.body == self@.body,
            r@.form == self@.form,
            r@.query == Some(pairs_view(val@)),
    {
        Self { query: Some(val), ..self }
    }

    /// Attaches a form body, replacing any earlier one.
    pub fn form(self, val: Vec<(String, String)>) -> (r: Self)
        ensures
            r@.method == self@.method,
            r@.url == self@.url,
            r@.body == self@.body,
            r@.form == Some(pairs_view(val@)),
            r@.query == self@.query,
    {
        Self { form: Some(val), ..self }
    }

    /// Attaches the bearer token and the platform's fixed headers.
    pub fn authorize(self, token: &AccessToken) -> (r: PreparedRequest)
        ensures
            spec_authorized(self@, token@, r),
    {
        let mut bearer = String::from_str("Bearer ");
        bearer.append(token.token());
        let mut headers: Vec<(String, String)> = Vec::new();
        headers.push((String::from_str("Authorization"), bearer));
        headers.push(
            (
                String::from_str("Accept"),
                String::from_str("application/vnd.flowmailer.v1.12+json;charset=UTF-8"),
            ),
        );
        headers.push((String::from_str("Host"), String::from_str("api.flowmailer.net")));
        headers.push(
            (
                String::from_str("Content-Type"),
                String::from_str("application/vnd.flowmailer.v1.12+json;charset=UTF-8"),
            ),
        );
        let r = PreparedRequest {
            method: self.method,
            url: self.url,
            headers,
            body: self.body,
            form: self.form,
            query: self.query,
        };
        proof {
            assert(pairs_view(r.headers@) =~= seq![
                ("Authorization"@, "Bearer "@ + token@),
                ("Accept"@, spec_media_type()),
                ("Host"@, spec_api_host()),
                ("Content-Type"@, spec_media_type()),
            ]);
        }
        r
    }

    /// Continues the pipeline after the token exchange.  A transport failure
    /// becomes `Other`; a body that yields no token becomes an `Auth` error
    /// and no request is prepared (the short-circuit); a token yields the
    /// prepared, authorized request.
    pub fn with_token_outcome(self, outcome: TokenOutcome) -> (r: Result<PreparedRequest, Error>)
        ensures
            outcome matches TokenOutcome::Failure(msg) ==> (r matches Err(e) && e.kind matches
                Kind::Other(m) && m@ == msg@),
            outcome matches TokenOutcome::Body(body) ==> {
                &&& access_token_of(body@) is None ==> (r matches Err(e) && e.kind matches
                    Kind::Auth(m) && exists|d: Seq<char>|
                    m@ == "failed to parse response json: "@ + d)
                &&& access_token_of(body@) matches Some(t) ==> (r matches Ok(p) && spec_authorized(
                    self@,
                    t,
                    p,
                ))
            },
    {
        match outcome {
            TokenOutcome::Failure(msg) => Err(Error::new(Kind::Other(msg))),
            TokenOutcome::Body(body) => {
                match Auth::interpret_token_response(body.as_str()) {
                    Ok(token) => Ok(self.authorize(&token)),
                    Err(e) => Err(e),
                }
            },
        }
    }

    /// Builds the absolute URL for the account-scoped `path` and matrix
    /// parameters.  The base URL is fixed at compile time, so this never
    /// fails; the `Result` mirrors the defensive shape of the operation.
    fn create_url(client: &Client, path: &str, matrix_args: &[(&str, &str)]) -> (r: Result<
        String,
        Error,
    >)
        ensures
            r matches Ok(u) && u@ == spec_request_url(client@.account_id, path@, matrix_args@),
    {
        let mut url = String::from_str("https://api.flowmailer.net");
        url.append("/");
        url.append(client.credentials().account_id().as_str());
        url.append("/");
        url.append(path);
        proof {
            assert(url@ =~= spec_request_url(
                client@.account_id,
                path@,
                matrix_args@.take(0),
            ));
        }
        let n = matrix_args.len();
        let mut i: usize = 0;
        while i < n
            invariant
                i <= n,
                n == matrix_args@.len(),
                url@ == spec_request_url(client@.account_id, path@, matrix_args@.take(i as int)),
            decreases n - i,
        {
            let (key, value) = matrix_args[i];
            url.append(";");
            url.append(key);
            url.append("=");
            url.append(value);
            proof {
                assert(matrix_args@.take(i as int + 1).drop_last() =~= matrix_args@.take(
                    i as int,
                ));
                assert(matrix_args@.take(i as int + 1).last() == matrix_args@[i as int]);
                assert(url@ =~= spec_request_url(
                    client@.account_id,
                    path@,
                    matrix_args@.take(i as int + 1),
                ));
            }
            i = i + 1;
        }
        proof {
            assert(matrix_args@.take(n as int) =~= matrix_args@);
        }
        Ok(url)
    }
}

/// What the transport reported for a dispatched request.  The transport is
/// required to surface a failure that corresponds to HTTP 401 distinctly,
/// as a status failure, so that a rejected bearer token can be told apart
/// from other failures.
pub enum TransportOutcome {
    /// A response arrived: its status, its headers (names lowercase) and its
    /// body text (`None` when the body could not be read as text).
    Received { status: u16, headers: Vec<(String, Option<String>)>, body: Option<String> },
    /// The transport failed with an error that carries an HTTP status.
    StatusFailure { status: u16, message: String },
    /// The transport failed before any HTTP status was available.
    NetworkFailure { message: String },
}

/// A successful (2xx) exchange: the raw status, headers and body, exposed
/// unchanged.
#[derive(Debug)]
pub struct Response {
    pub status: u16,
    pub headers: Vec<(String, Option<String>)>,
    pub body: Option<String>,
}

/// The body text used for diagnostics, with the fixed placeholder when the
/// body was unreadable.
pub open spec fn spec_body_text(body: Option<String>) -> Seq<char> {
    match body {
        Some(t) => t@,
        None => "no text body"@,
    }
}

/// Classifies the transport outcome, in order: a status-carrying failure
/// equal to HTTP 401 means the bearer token was rejected, regardless of any
/// response content; any other transport failure is `Other`; a received 2xx
/// response passes through unchanged; any other received status is
/// `BadRequest` with the exact body text.
pub fn classify_outcome(outcome: TransportOutcome) -> (r: Result<Response, Error>)
    ensures
        outcome matches TransportOutcome::StatusFailure { status, message } ==> {
            &&& status == 401 ==> (r matches Err(e) && e.kind matches Kind::AuthExpiredToken)
            &&& status != 401 ==> (r matches Err(e) && e.kind matches Kind::Other(m) && m@
                == message@)
        },
        outcome matches TransportOutcome::NetworkFailure { message } ==> (r matches Err(e)
            && e.kind matches Kind::Other(m) && m@ == message@),
        outcome matches TransportOutcome::Received { status, headers, body } ==> {
            &&& 200 <= status < 300 ==> (r matches Ok(resp) && resp.status == status
                && resp.headers == headers && resp.body == body)
            &&& !(200 <= status < 300) ==> (r matches Err(e) && e.kind matches Kind::BadRequest(b)
                && b@ == spec_body_text(body))
        },
{
    match outcome {
        TransportOutcome::StatusFailure { status, message } => {
            if status == 401 {
                Err(Error::new(Kind::AuthExpiredToken))
            } else {
                Err(Error::new(Kind::Other(message)))
            }
        },
        TransportOutcome::NetworkFailure { message } => Err(Error::new(Kind::Other(message))),
        TransportOutcome::Received { status, headers, body } => {
            if 200 <= status && status < 300 {
                Ok(Response { status, headers, body })
            } else {
                let text = match body {
                    Some(t) => t,
                    None => String::from_str("no text body"),
                };
                Err(Error::new(Kind::BadRequest(text)))
            }
        },
    }
}

/// The first header with the given name: `None` when absent, otherwise the
/// header's value (`Some(None)` when the value is not text).
pub open spec fn spec_header(
    headers: Seq<(String, Option<String>)>,
    name: Seq<char>,
) -> Option<Option<Seq<char>>>
    decreases headers.len(),
{
    if headers.len() == 0 {
        None
    } else if headers.first().0@ == name {
        Some(opt_text_view(headers.first().1))
    } else {
        spec_header(headers.drop_first(), name)
    }
}

impl Response {
    /// Looks up the first header with the given (lowercase) name and clones
    /// its value.
    pub fn header(&self, name: &str) -> (r: Option<Option<String>>)
        ensures
            match spec_header(self.headers@, name@) {
                None => r is None,
                Some(v) => r matches Some(w) && opt_text_view(w) == v,
            },
    {
        let needle = String::from_str(name);
        let n = self.headers.len();
        let mut i: usize = 0;
        proof {
            assert(self.headers@.skip(0) =~= self.headers@);
        }
        while i < n
            invariant
                i <= n,
                n == self.headers@.len(),
                needle@ == name@,
                spec_header(self.headers@, name@) == spec_header(
                    self.headers@.skip(i as int),
                    name@,
                ),
            decreases n - i,
        {
            proof {
                assert(self.headers@.skip(i as int).first() == self.headers@[i as int]);
                assert(self.headers@.skip(i as int).drop_first() =~= self.headers@.skip(
                    i as int + 1,
                ));
            }
            if self.headers[i].0 == needle {
                let v = match &self.headers[i].1 {
                    Some(s) => Some(s.clone()),
                    None => None,
                };
                return Some(v);
            }
            i = i + 1;
        }
        None
    }
}

} // verus!
