use annis::{
    Casts, Episodes, IsValid, MePrograms, MeRecords, ParamKey, QueryName, Records, Staffs, Works,
};

#[test]
fn string_keys_match_enum_keys_on_every_endpoint() {
    assert_eq!(
        annis::episodes().params(vec![(Episodes::filter_work_id, "2274")]).params,
        annis::episodes().params(vec![("filter_work_id", "2274")]).params
    );
    assert_eq!(
        annis::records().params(vec![(Records::fields, "title")]).params,
        annis::records().params(vec![("fields", "title")]).params
    );
    assert_eq!(
        annis::me_programs().params(vec![(MePrograms::filter_started_at_lt, "x")]).params,
        annis::me_programs().params(vec![("filter_started_at_lt", "x")]).params
    );
    assert_eq!(
        annis::casts().params(vec![(Casts::sort_sort_number, "asc")]).params,
        annis::casts().params(vec![("sort_sort_number".to_string(), "asc")]).params
    );
    assert_eq!(
        annis::staffs().params(vec![(Staffs::filter_name, "a")]).params,
        annis::staffs().params(vec![("filter_name", "a")]).params
    );
}

#[test]
fn every_key_is_found_from_its_name() {
    for key in Works::keys() {
        assert!(key.is_valid());
        let by_name = annis::key::parse_key::<Works>(&key.name());
        assert_eq!(by_name, key);
    }
    for key in MePrograms::keys() {
        assert_eq!(annis::key::parse_key::<MePrograms>(&key.name()), key);
    }
}

#[test]
fn unknown_keys_are_dropped() {
    let works = annis::works().params(vec![
        ("filter_title", "lain"),
        ("no_such_key", "1"),
        ("Invalid", "2"),
        ("FILTER_TITLE", "3"),
        ("page", "4"),
    ]);
    assert_eq!(
        works.params,
        Some(vec![(Works::filter_title, "lain".to_string()), (Works::page, "4".to_string())])
    );
}

#[test]
fn invalid_key_passed_directly_is_dropped() {
    let works = annis::works().params(vec![(Works::Invalid, "x"), (Works::sort_id, "desc")]);
    assert_eq!(works.params, Some(vec![(Works::sort_id, "desc".to_string())]));
}

#[test]
fn all_pairs_invalid_gives_empty_list() {
    let works = annis::works().params(vec![("nope", "x")]);
    assert_eq!(works.params, Some(vec![]));
    let works = annis::works().params(Vec::<(&str, &str)>::new());
    assert_eq!(works.params, Some(vec![]));
}

#[test]
fn second_call_pairs_come_first() {
    let works = annis::works()
        .params(vec![("filter_title", "lain"), ("fields", "title")])
        .params(vec![("page", "2"), ("per_page", "5")]);
    assert_eq!(
        works.params,
        Some(vec![
            (Works::page, "2".to_string()),
            (Works::per_page, "5".to_string()),
            (Works::filter_title, "lain".to_string()),
            (Works::fields, "title".to_string()),
        ])
    );
}

#[test]
fn duplicate_keys_are_kept() {
    let works = annis::works().params(vec![("page", "1"), ("page", "2")]);
    assert_eq!(
        works.params,
        Some(vec![(Works::page, "1".to_string()), (Works::page, "2".to_string())])
    );
}

#[test]
fn parse_of_unknown_name_is_invalid() {
    let k: Works = annis::key::parse_key("filter_titles");
    assert_eq!(k, Works::Invalid);
    assert!(!k.is_valid());
    assert_eq!(Works::invalid(), Works::Invalid);
    let k: MeRecords = annis::key::parse_key("");
    assert_eq!(k, MeRecords::Invalid);
}

#[test]
fn key_names_are_variant_names() {
    assert_eq!(Works::filter_title.name(), "filter_title");
    assert_eq!(MeRecords::share_facebook.name(), "share_facebook");
    assert_eq!(Works::Invalid.name(), "Invalid");
    assert_eq!(Works::keys().len(), 9);
    assert_eq!(MePrograms::keys().len(), 12);
}
