//! Operations on the `flows` resource.

use vstd::prelude::*;

use crate::client::Client;
use crate::encode::{encode_flow, flow_json};
use crate::error::Error;
use crate::request::{spec_request_url, Method, RequestBuilder};
use crate::resources::Flow;

verus! {

/// Sets up the creation of a message flow: a POST of the JSON-encoded flow
/// to `flows`.  The token exchange and the dispatch drive the returned
/// builder through the request pipeline.
pub fn create(client: &Client, flow: Flow) -> (r: Result<RequestBuilder, Error>)
    ensures
        r matches Ok(b) && b@.method == Method::Post && b@.url == spec_request_url(
            client@.account_id,
            "flows"@,
            Seq::empty(),
        ) && b@.body == Some(flow_json(flow)) && b@.form is None && b@.query is None,
{
    let body = encode_flow(&flow);
    let no_args: Vec<(&str, &str)> = Vec::new();
    let rb = match RequestBuilder::post(client, "flows", no_args.as_slice()) {
        Ok(b) => b,
        Err(e) => {
            return Err(e);
        },
    };
    proof {
        assert(no_args@ =~= Seq::<(&str, &str)>::empty());
    }
    Ok(rb.body(body))
}

} // verus!
