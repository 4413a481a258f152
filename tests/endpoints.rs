use annis::{Error, ErrorKind, HttpMethod, MeRecords, MeReviews, Method};

#[test]
fn me_records() {
    let records = annis::me_records(Method::POST, 5013);
    assert_eq!(records.method, HttpMethod::POST);
    assert_eq!(records.url, "https://api.annict.com/v1/me/records");
    assert_eq!(records.params, Some(vec![(MeRecords::episode_id, "5013".to_string())]));

    let records = annis::me_records(Method::PATCH, 1838569).params(vec![("rating", "5")]);
    assert_eq!(records.method, HttpMethod::PATCH);
    assert_eq!(records.url, "https://api.annict.com/v1/me/records/1838569");
    assert_eq!(records.params, Some(vec![(MeRecords::rating, "5".to_string())]));

    let records = annis::me_records(Method::DELETE, 0);
    assert_eq!(records.method, HttpMethod::DELETE);
    assert_eq!(records.url, "https://api.annict.com/v1/me/records/0");
    assert_eq!(records.params, None);
}

#[test]
fn me_reviews_by_method() {
    let reviews = annis::me_reviews(Method::POST, 42).params(vec![("title", "good")]);
    assert_eq!(reviews.url, "https://api.annict.com/v1/me/reviews");
    assert_eq!(
        reviews.params,
        Some(vec![
            (MeReviews::title, "good".to_string()),
            (MeReviews::work_id, "42".to_string()),
        ])
    );
    let reviews = annis::me_reviews(Method::DELETE, usize::MAX);
    assert_eq!(reviews.method, HttpMethod::DELETE);
    assert_eq!(reviews.url, format!("https://api.annict.com/v1/me/reviews/{}", usize::MAX));
}

#[test]
fn collection_urls() {
    let cases: Vec<(String, HttpMethod, &str)> = vec![
        (annis::works().url, annis::works().method, "https://api.annict.com/v1/works"),
        (annis::episodes().url, annis::episodes().method, "https://api.annict.com/v1/episodes"),
        (annis::records().url, annis::records().method, "https://api.annict.com/v1/records"),
        (annis::reviews().url, annis::reviews().method, "https://api.annict.com/v1/reviews"),
        (annis::users().url, annis::users().method, "https://api.annict.com/v1/users"),
        (annis::following().url, annis::following().method, "https://api.annict.com/v1/following"),
        (annis::followers().url, annis::followers().method, "https://api.annict.com/v1/followers"),
        (annis::activities().url, annis::activities().method, "https://api.annict.com/v1/activities"),
        (annis::me().url, annis::me().method, "https://api.annict.com/v1/me"),
        (annis::me_following_activities().url, annis::me_following_activities().method, "https://api.annict.com/v1/me/following_activities"),
        (annis::me_works().url, annis::me_works().method, "https://api.annict.com/v1/me/works"),
        (annis::me_programs().url, annis::me_programs().method, "https://api.annict.com/v1/me/programs"),
        (annis::people().url, annis::people().method, "https://api.annict.com/v1/people"),
        (annis::organizations().url, annis::organizations().method, "https://api.annict.com/v1/organizations"),
        (annis::series().url, annis::series().method, "https://api.annict.com/v1/series"),
        (annis::characters().url, annis::characters().method, "https://api.annict.com/v1/characters"),
        (annis::casts().url, annis::casts().method, "https://api.annict.com/v1/casts"),
        (annis::staffs().url, annis::staffs().method, "https://api.annict.com/v1/staffs"),
    ];
    for (url, method, expected) in cases {
        assert_eq!(url, expected);
        assert_eq!(method, HttpMethod::GET);
    }
    let statuses = annis::me_statuses();
    assert_eq!(statuses.method, HttpMethod::POST);
    assert_eq!(statuses.url, "https://api.annict.com/v1/me/statuses");
    assert_eq!(statuses.params, None);
}

#[test]
fn me_statuses() {
    let statuses = annis::me_statuses().params(vec![("work_id", "3994"), ("kind", "watched")]);
    assert_eq!(
        statuses.params,
        Some(vec![
            (annis::MeStatuses::work_id, "3994".to_string()),
            (annis::MeStatuses::kind, "watched".to_string()),
        ])
    );
}

#[test]
fn error_kind_and_message() {
    let err = Error::new(ErrorKind::InvalidValue);
    assert_eq!(*err.kind(), ErrorKind::InvalidValue);
    assert_eq!(Error::from(ErrorKind::InvalidValue), err);
    assert_eq!(
        err.kind().message(),
        "Invalid value at token or request parameters"
    );
}
