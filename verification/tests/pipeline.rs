use flowmailer::auth::{AccountId, Auth, ClientId, ClientSecret, TokenOutcome};
use flowmailer::request::{classify_outcome, Method, RequestBuilder, Response, TransportOutcome};
use flowmailer::{Client, Kind};

fn client_fixture() -> Client {
    Client::new(Auth::new(
        ClientSecret::new("sec".to_string()),
        ClientId::new("cid".to_string()),
        AccountId::new("acct".to_string()),
    ))
}

fn token_body() -> TokenOutcome {
    TokenOutcome::Body("{\"access_token\":\"tok\"}".to_string())
}

#[test]
fn url_joins_account_path_and_matrix_params() {
    let client = client_fixture();
    let rb = RequestBuilder::post(&client, "msgs", &[("a", "1"), ("b", "2")]).unwrap();
    let p = rb.with_token_outcome(token_body()).unwrap();
    assert_eq!(p.url, "https://api.flowmailer.net/acct/msgs;a=1;b=2");
}

#[test]
fn url_keeps_matrix_param_order_and_duplicates() {
    let client = client_fixture();
    let rb =
        RequestBuilder::get(&client, "p", &[("z", "9"), ("a", "1"), ("z", "9")]).unwrap();
    let p = rb.with_token_outcome(token_body()).unwrap();
    assert_eq!(p.url, "https://api.flowmailer.net/acct/p;z=9;a=1;z=9");
    assert!(matches!(p.method, Method::Get));
}

#[test]
fn url_without_matrix_params() {
    let client = client_fixture();
    let rb = RequestBuilder::post(&client, "messages/submit", &[]).unwrap();
    let p = rb.with_token_outcome(token_body()).unwrap();
    assert_eq!(p.url, "https://api.flowmailer.net/acct/messages/submit");
    assert!(matches!(p.method, Method::Post));
}

#[test]
fn authorized_request_carries_fixed_headers() {
    let client = client_fixture();
    let rb = RequestBuilder::post(&client, "x", &[]).unwrap();
    let p = rb
        .body("payload".to_string())
        .with_token_outcome(token_body())
        .unwrap();
    assert_eq!(p.headers.len(), 4);
    assert_eq!(
        p.headers[0],
        ("Authorization".to_string(), "Bearer tok".to_string())
    );
    assert_eq!(
        p.headers[1],
        (
            "Accept".to_string(),
            "application/vnd.flowmailer.v1.12+json;charset=UTF-8".to_string()
        )
    );
    assert_eq!(
        p.headers[2],
        ("Host".to_string(), "api.flowmailer.net".to_string())
    );
    assert_eq!(
        p.headers[3],
        (
            "Content-Type".to_string(),
            "application/vnd.flowmailer.v1.12+json;charset=UTF-8".to_string()
        )
    );
    assert_eq!(p.body, Some("payload".to_string()));
    assert!(p.form.is_none());
    assert!(p.query.is_none());
}

#[test]
fn token_transport_failure_is_other() {
    let client = client_fixture();
    let rb = RequestBuilder::post(&client, "x", &[]).unwrap();
    let e = rb
        .with_token_outcome(TokenOutcome::Failure("connection refused".to_string()))
        .err()
        .expect("must fail");
    assert!(matches!(e.kind, Kind::Other(_)));
    assert_eq!(e.message(), "connection refused");
}

#[test]
fn token_body_without_token_short_circuits() {
    let client = client_fixture();
    let rb = RequestBuilder::post(&client, "x", &[]).unwrap();
    let r = rb.with_token_outcome(TokenOutcome::Body("{}".to_string()));
    let e = r.err().expect("no request may be prepared");
    assert!(matches!(e.kind, Kind::Auth(_)));
}

#[test]
fn received_2xx_passes_through() {
    let headers = vec![
        ("location".to_string(), Some("/1/messages/2".to_string())),
        ("x-raw".to_string(), None),
    ];
    let r = classify_outcome(TransportOutcome::Received {
        status: 201,
        headers: headers.clone(),
        body: Some("the body".to_string()),
    });
    let resp = r.expect("2xx is success");
    assert_eq!(resp.status, 201);
    assert_eq!(resp.headers, headers);
    assert_eq!(resp.body, Some("the body".to_string()));
}

#[test]
fn received_200_and_299_are_success() {
    for status in [200u16, 204, 299] {
        let r = classify_outcome(TransportOutcome::Received {
            status,
            headers: vec![],
            body: None,
        });
        assert!(r.is_ok());
    }
}

#[test]
fn status_failure_401_is_expired_token_regardless_of_content() {
    for message in ["unauthorized", "", "a long diagnostic text"] {
        let r = classify_outcome(TransportOutcome::StatusFailure {
            status: 401,
            message: message.to_string(),
        });
        let e = r.err().expect("401 fails");
        assert!(matches!(e.kind, Kind::AuthExpiredToken));
        assert_eq!(e.message(), "expired auth token");
    }
}

#[test]
fn received_4xx_is_bad_request_with_exact_body() {
    let r = classify_outcome(TransportOutcome::Received {
        status: 404,
        headers: vec![],
        body: Some("not found here".to_string()),
    });
    let e = r.err().expect("must fail");
    match &e.kind {
        Kind::BadRequest(b) => assert_eq!(b, "not found here"),
        _ => panic!("expected bad request"),
    }
    assert_eq!(e.message(), "bad request: not found here");
}

#[test]
fn received_5xx_without_body_uses_placeholder() {
    let r = classify_outcome(TransportOutcome::Received {
        status: 500,
        headers: vec![],
        body: None,
    });
    match r.err().expect("must fail").kind {
        Kind::BadRequest(b) => assert_eq!(b, "no text body"),
        _ => panic!("expected bad request"),
    }
}

#[test]
fn status_failure_other_is_other() {
    let r = classify_outcome(TransportOutcome::StatusFailure {
        status: 500,
        message: "server error".to_string(),
    });
    match r.err().expect("must fail").kind {
        Kind::Other(m) => assert_eq!(m, "server error"),
        _ => panic!("expected other"),
    }
}

#[test]
fn network_failure_is_other() {
    let r = classify_outcome(TransportOutcome::NetworkFailure {
        message: "dns error".to_string(),
    });
    let e = r.err().expect("must fail");
    assert!(matches!(e.kind, Kind::Other(_)));
    assert_eq!(e.message(), "dns error");
}

#[test]
fn response_header_lookup_finds_first_match() {
    let resp = Response {
        status: 200,
        headers: vec![
            ("a".to_string(), Some("1".to_string())),
            ("b".to_string(), Some("2".to_string())),
            ("b".to_string(), Some("3".to_string())),
        ],
        body: None,
    };
    assert_eq!(resp.header("b"), Some(Some("2".to_string())));
    assert_eq!(resp.header("a"), Some(Some("1".to_string())));
    assert_eq!(resp.header("c"), None);
}

#[test]
fn response_header_lookup_keeps_non_text_value() {
    let resp = Response {
        status: 200,
        headers: vec![("raw".to_string(), None)],
        body: None,
    };
    assert_eq!(resp.header("raw"), Some(None));
}
