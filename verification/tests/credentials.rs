use flowmailer::auth::{AccessToken, AccountId, Auth, ClientId, ClientSecret};
use flowmailer::Client;

fn auth_fixture() -> Auth {
    Auth::new(
        ClientSecret::new("sec".to_string()),
        ClientId::new("cid".to_string()),
        AccountId::new("acct".to_string()),
    )
}

#[test]
fn client_secret_round_trip() {
    let s = ClientSecret::new("top secret".to_string());
    assert_eq!(s.secret(), "top secret");
}

#[test]
fn client_id_round_trip() {
    let i = ClientId::new("my-id".to_string());
    assert_eq!(i.id(), "my-id");
}

#[test]
fn access_token_round_trip() {
    let t = AccessToken::new("bearer-value".to_string());
    assert_eq!(t.token(), "bearer-value");
}

#[test]
fn account_id_round_trip() {
    let a = AccountId::new("1234".to_string());
    assert_eq!(a.as_str(), "1234");
}

#[test]
fn empty_credentials_are_accepted() {
    let auth = Auth::new(
        ClientSecret::new(String::new()),
        ClientId::new(String::new()),
        AccountId::new(String::new()),
    );
    assert_eq!(auth.account_id().as_str(), "");
}

#[test]
fn auth_keeps_account_id() {
    let auth = auth_fixture();
    assert_eq!(auth.account_id().as_str(), "acct");
}

#[test]
fn client_keeps_credentials() {
    let client = Client::new(auth_fixture());
    assert_eq!(client.credentials().account_id().as_str(), "acct");
}

#[test]
fn token_request_form_fields() {
    let auth = auth_fixture();
    let tr = auth.token_request();
    assert_eq!(tr.url, "https://login.flowmailer.net/oauth/token");
    assert_eq!(tr.form.len(), 4);
    assert_eq!(tr.form[0], ("client_id".to_string(), "cid".to_string()));
    assert_eq!(tr.form[1], ("client_secret".to_string(), "sec".to_string()));
    assert_eq!(
        tr.form[2],
        ("grant_type".to_string(), "client_credentials".to_string())
    );
    assert_eq!(tr.form[3], ("scope".to_string(), "api".to_string()));
}

#[test]
fn token_response_with_access_token() {
    let r = Auth::interpret_token_response("{\"access_token\":\"tok-1\",\"expires_in\":60}");
    let token = r.expect("token should parse");
    assert_eq!(token.token(), "tok-1");
}

#[test]
fn token_response_without_access_token_is_auth_error() {
    let r = Auth::interpret_token_response("{\"expires_in\":60}");
    let e = r.err().expect("must fail");
    assert!(matches!(e.kind, flowmailer::Kind::Auth(_)));
    assert!(e
        .message()
        .starts_with("auth: failed to parse response json: "));
}

#[test]
fn token_response_with_non_string_token_is_auth_error() {
    let r = Auth::interpret_token_response("{\"access_token\":17}");
    assert!(matches!(
        r.err().expect("must fail").kind,
        flowmailer::Kind::Auth(_)
    ));
}

#[test]
fn token_response_garbage_is_auth_error() {
    let r = Auth::interpret_token_response("no json here");
    assert!(matches!(
        r.err().expect("must fail").kind,
        flowmailer::Kind::Auth(_)
    ));
}
