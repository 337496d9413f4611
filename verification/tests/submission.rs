use flowmailer::auth::{AccountId, Auth, ClientId, ClientSecret, TokenOutcome};
use flowmailer::request::{Method, Response};
use flowmailer::rest_api::message::{submit, subpath};
use flowmailer::{Client, Kind, MailAddress, MailBuilder};

fn client_fixture() -> Client {
    Client::new(Auth::new(
        ClientSecret::new("sec".to_string()),
        ClientId::new("cid".to_string()),
        AccountId::new("acct".to_string()),
    ))
}

fn text_mail() -> MailBuilder {
    MailBuilder::new_text(
        MailAddress::new("a@x.com".to_string()),
        MailAddress::new("b@x.com".to_string()),
        "hello".to_string(),
    )
    .set_subject("hi".to_string())
}

#[test]
fn subpath_prefixes_messages() {
    assert_eq!(subpath("submit"), "messages/submit");
    assert_eq!(subpath(""), "messages/");
}

#[test]
fn submit_targets_the_submit_path_with_the_encoded_body() {
    let client = client_fixture();
    let msg = text_mail().submit_message();
    let rb = submit(&client, &msg).expect("submit sets up");
    let p = rb
        .with_token_outcome(TokenOutcome::Body(
            "{\"access_token\":\"tok\"}".to_string(),
        ))
        .expect("token accepted");
    assert_eq!(p.url, "https://api.flowmailer.net/acct/messages/submit");
    assert!(matches!(p.method, Method::Post));
    let body = p.body.expect("submission has a body");
    let v: serde_json::Value = serde_json::from_str(&body).expect("body is json");
    assert_eq!(v.get("subject").and_then(|x| x.as_str()), Some("hi"));
}

#[test]
fn set_data_rejects_text_that_is_not_json() {
    let r = text_mail().set_data("definitely not json".to_string());
    let e = r.err().expect("must fail");
    assert!(matches!(e.kind, Kind::Parse(_)));
}

#[test]
fn set_data_accepts_a_json_document() {
    let r = text_mail().set_data("[1,2,3]".to_string());
    assert!(r.is_ok());
}

#[test]
fn submission_with_location_header_succeeds() {
    let resp = Response {
        status: 201,
        headers: vec![(
            "location".to_string(),
            Some("/123/messages/abc123".to_string()),
        )],
        body: None,
    };
    assert!(MailBuilder::interpret_submit_response(&resp).is_ok());
}

#[test]
fn submission_without_location_header_fails() {
    let resp = Response {
        status: 201,
        headers: vec![("content-type".to_string(), Some("text/plain".to_string()))],
        body: None,
    };
    let e = MailBuilder::interpret_submit_response(&resp)
        .err()
        .expect("must fail");
    match &e.kind {
        Kind::MissingHeader { header, msg } => {
            assert_eq!(header, "location");
            assert_eq!(msg, "need location header in order to extract ID");
        },
        _ => panic!("expected missing header"),
    }
    assert_eq!(
        e.message(),
        "missing header 'location': need location header in order to extract ID"
    );
}

#[test]
fn submission_with_unreadable_location_fails_with_parse() {
    let resp = Response {
        status: 201,
        headers: vec![("location".to_string(), None)],
        body: None,
    };
    let e = MailBuilder::interpret_submit_response(&resp)
        .err()
        .expect("must fail");
    assert!(matches!(e.kind, Kind::Parse(_)));
    assert!(e.message().starts_with("json: "));
}
