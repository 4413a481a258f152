use annis::{trim_quotes, AccessToken, AuthorizeUrl, ErrorKind, HttpMethod, OAuth};

#[test]
fn authorize() {
    let url = OAuth::client_id("annict_client_id").authorize_url().build();
    assert_eq!(
        url,
        "https://annict.com/oauth/authorize?client_id=annict_client_id&redirect_uri=urn:ietf:wg:oauth:2.0:oob&response_type=code&scope=read"
    );
}

#[test]
fn auth_requests() {
    let auth = OAuth::client_id("annict_client_id".to_string());

    let instant = auth.authorize_url().build();
    let manual = AuthorizeUrl {
        client_id: "annict_client_id".to_string(),
        redirect_uri: "urn:ietf:wg:oauth:2.0:oob".to_string(),
        scope: "read".to_string(),
    }
    .build();
    assert_eq!(instant, manual);

    let instant = auth
        .access_token()
        .client_secret("client_secret_key")
        .code("certification code")
        .form();
    let manual = AccessToken {
        client_id: "annict_client_id".to_string(),
        client_secret: "client_secret_key".to_string(),
        code: "certification code".to_string(),
        redirect_uri: "urn:ietf:wg:oauth:2.0:oob".into(),
    }
    .form();
    assert_eq!(instant, manual);
}

#[test]
fn authorize_url_with_overrides() {
    let auth = OAuth::client_id("annict_client_id");
    let url = auth.authorize_url().redirect_uri("https://example.com").scope("read+write").build();
    assert_eq!(
        url,
        "https://annict.com/oauth/authorize?client_id=annict_client_id&redirect_uri=https://example.com&response_type=code&scope=read+write"
    );
}

#[test]
fn access_token_form_in_order() {
    let mut exchange = OAuth::client_id("id").access_token();
    exchange.client_secret("secret").code("c0de").redirect_uri("https://example.com/cb");
    let form = exchange.form();
    let expected: Vec<(String, String)> = vec![
        ("client_id", "id"),
        ("client_secret", "secret"),
        ("grant_type", "authorization_code"),
        ("redirect_uri", "https://example.com/cb"),
        ("code", "c0de"),
    ]
    .into_iter()
    .map(|(k, v)| (k.to_string(), v.to_string()))
    .collect();
    assert_eq!(form, expected);
    assert_eq!(AccessToken::endpoint(), "https://api.annict.com/oauth/token");
}

#[test]
fn access_token_defaults() {
    let exchange = AccessToken::new("id".to_string());
    assert_eq!(exchange.client_secret, "");
    assert_eq!(exchange.code, "");
    assert_eq!(exchange.redirect_uri, "urn:ietf:wg:oauth:2.0:oob");
}

#[test]
fn token_is_read_from_answer() {
    let token = AccessToken::token_from_body(r#"{"access_token":"abc123","token_type":"bearer"}"#);
    assert_eq!(token.unwrap(), "abc123");
}

#[test]
fn missing_token_reads_as_null() {
    let token = AccessToken::token_from_body(r#"{"error":"invalid_grant"}"#);
    assert_eq!(token.unwrap(), "null");
}

#[test]
fn answer_that_is_not_json_is_an_error() {
    let token = AccessToken::token_from_body("<html>bad gateway</html>");
    let err = token.unwrap_err();
    assert_eq!(*err.kind(), ErrorKind::InvalidValue);
}

#[test]
fn trim_quotes_removes_both_ends() {
    assert_eq!(trim_quotes("\"abc\""), "abc");
    assert_eq!(trim_quotes("\"\"a\"b\"\""), "a\"b");
    assert_eq!(trim_quotes("abc"), "abc");
    assert_eq!(trim_quotes("\"\"\""), "");
    assert_eq!(trim_quotes(""), "");
    assert_eq!(trim_quotes("\"日本\""), "日本");
}

#[test]
fn info_and_revoke_templates() {
    let info = OAuth::info();
    assert_eq!(info.method, HttpMethod::GET);
    assert_eq!(info.url, "https://api.annict.com/oauth/token/info");
    assert_eq!(info.params, None);

    let revoke = OAuth::revoke("old_token");
    assert_eq!(revoke.method, HttpMethod::POST);
    assert_eq!(revoke.url, "https://api.annict.com/oauth/revoke");
    assert_eq!(revoke.params, Some(vec![("token".to_string(), "old_token".to_string())]));
}

#[test]
fn revoke_request_sends_both_tokens() {
    let client = annis::Client::set_token("tok");
    let request = client.request(OAuth::revoke("old"));
    assert_eq!(
        request.query,
        vec![
            ("access_token".to_string(), "tok".to_string()),
            ("token".to_string(), "old".to_string()),
        ]
    );
}

#[test]
fn same_answer_gives_same_token() {
    let body = r#"{"token_type":"bearer","access_token":"\"quoted\"x"}"#;
    let a = AccessToken::token_from_body(body).unwrap();
    let b = AccessToken::token_from_body(body).unwrap();
    assert_eq!(a, b);
    assert_eq!(a, "\\\"quoted\\\"x");
}
