use annis::{Client, HttpMethod};

#[test]
fn set_token() {
    let a = Client::set_token("annict_access_token".to_string());
    let b = Client::set_token("annict_access_token");
    assert_eq!(a.token, "annict_access_token");
    assert_eq!(a.token, b.token);
}

#[test]
fn call() {
    let client = Client::set_token("annict_access_token");
    let works = annis::works().params(vec![("filter_title", "lain")]);
    let request = client.request(works);
    assert_eq!(request.method, HttpMethod::GET);
    assert_eq!(request.url, "https://api.annict.com/v1/works");
    assert_eq!(
        request.query,
        vec![
            ("access_token".to_string(), "annict_access_token".to_string()),
            ("filter_title".to_string(), "lain".to_string()),
        ]
    );
}

#[test]
fn post_pairs_go_in_query_too() {
    let client = Client::set_token("t");
    let request = client.request(
        annis::me_records(annis::Method::POST, 5013).params(vec![("rating", "5")]),
    );
    assert_eq!(request.method, HttpMethod::POST);
    assert_eq!(
        request.query,
        vec![
            ("access_token".to_string(), "t".to_string()),
            ("rating".to_string(), "5".to_string()),
            ("episode_id".to_string(), "5013".to_string()),
        ]
    );
}
