//! Operations on the `messages` resource.

use vstd::prelude::*;

use crate::client::Client;
use crate::encode::{encode_submit_message, submit_message_json};
use crate::error::Error;
use crate::request::{spec_request_url, Method, RequestBuilder};
use crate::resources::SubmitMessage;

verus! {

/// The path under the `messages` resource: `messages/{path}`.
pub fn subpath(path: &str) -> (r: String)
    ensures
        r@ == "messages/"@ + path@,
{
    let mut s = String::from_str("messages/");
    s.append(path);
    s
}

/// Sets up the submission of an email or sms message: a POST of the
/// JSON-encoded record to `messages/submit`.  The token exchange and the
/// dispatch drive the returned builder through the request pipeline.
pub fn submit(client: &Client, msg: &SubmitMessage) -> (r: Result<RequestBuilder, Error>)
    ensures
        r matches Ok(b) && b@.method == Method::Post && b@.url == spec_request_url(
            client@.account_id,
            "messages/"@ + "submit"@,
            Seq::empty(),
        ) && b@.body == Some(submit_message_json(*msg)) && b@.form is None && b@.query is None,
{
    let path = subpath("submit");
    let body = encode_submit_message(msg);
    let no_args: Vec<(&str, &str)> = Vec::new();
    let rb = match RequestBuilder::post(client, path.as_str(), no_args.as_slice()) {
        Ok(b) => b,
        Err(e) => {
            return Err(e);
        },
    };
    proof {
        assert(no_args@ =~= Seq::<(&str, &str)>::empty());
    }
    Ok(rb.body(body))
}

} // verus!
