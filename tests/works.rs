use annis::{Client, Request, Value, Works};

/// Answers a request the way the service answers the two searches below,
/// without a network.
fn stub_transport(request: &Request) -> String {
    let asks = |k: &str, v: &str| request.query.iter().any(|(a, b)| a == k && b == v);
    if request.url == "https://api.annict.com/v1/works"
        && (asks("filter_title", "lain") || asks("filter_ids", "860"))
    {
        r#"{"works":[{"id":860,"title":"serial experiments lain"}],"total_count":1}"#.to_string()
    } else {
        r#"{"works":[],"total_count":0}"#.to_string()
    }
}

fn call(client: &Client, works: annis::Service<Works>) -> Value {
    let request = client.request(works);
    serde_json::from_str(&stub_transport(&request)).unwrap_or(Value::Null)
}

#[test]
fn enum_params() {
    let use_enum = annis::works().params(vec![(Works::filter_title, "lain")]);
    let use_string = annis::works().params(vec![("filter_title", "lain")]);

    assert_eq!(use_enum.params, use_string.params);
}

#[test]
fn filter_title() {
    let client = Client::set_token("annict_access_token");
    let works = annis::works().params(vec![(Works::filter_title, "lain")]);
    let json = call(&client, works);
    assert_eq!(json["works"][0]["title"], "serial experiments lain".to_string());
}

#[test]
fn filter_ids() {
    let client = Client::set_token("annict_access_token");
    let works = annis::works().params(vec![("filter_ids", "860")]);
    let json = call(&client, works);
    assert_eq!(json["works"][0]["title"], "serial experiments lain".to_string());

    let client = Client::set_token("annict_access_token");
    let works = annis::works().params(vec![("filter_ids", "0")]);
    let json = call(&client, works);
    assert_eq!(json["works"][0]["title"], Value::Null);
}

#[test]
fn works_request_carries_token_then_params() {
    let client = Client::set_token("tok");
    let works = annis::works().params(vec![(Works::filter_title, "lain"), (Works::fields, "title")]);
    let request = client.request(works);
    assert_eq!(request.method, annis::HttpMethod::GET);
    assert_eq!(request.url, "https://api.annict.com/v1/works");
    assert_eq!(
        request.query,
        vec![
            ("access_token".to_string(), "tok".to_string()),
            ("filter_title".to_string(), "lain".to_string()),
            ("fields".to_string(), "title".to_string()),
        ]
    );
}

#[test]
fn vanilla_request_has_only_token() {
    let client = Client::set_token(String::from("tok"));
    let request = client.request(annis::works());
    assert_eq!(request.query, vec![("access_token".to_string(), "tok".to_string())]);
}

#[test]
fn nonblocking_client_prepares_the_same_request() {
    let blocking = Client::set_token("tok").request(annis::works().params(vec![("page", "2")]));
    let nonblocking =
        annis::nonblocking::Client::set_token("tok").request(annis::works().params(vec![("page", "2")]));
    assert_eq!(blocking.url, nonblocking.url);
    assert_eq!(blocking.method, nonblocking.method);
    assert_eq!(blocking.query, nonblocking.query);
}
