//! The fetch-by-id query string: ids in order, duplicates kept, and the
//! trailing separator removed when no namespace follows.

use pinenut::models::FetchRequest;

#[test]
fn two_ids_and_a_namespace() {
    let request = FetchRequest {
        ids: vec!["A".to_string(), "B".to_string()],
        namespace: Some("ns1".to_string()),
    };
    let url = request.url("https://host".to_string());
    assert_eq!(url, "https://host/vectors/fetch?ids=A&ids=B&namespace=ns1");
}

#[test]
fn one_id_and_no_namespace_drops_the_trailing_separator() {
    let request = FetchRequest { ids: vec!["A".to_string()], namespace: None };
    let url = request.url("https://host".to_string());
    assert_eq!(url, "https://host/vectors/fetch?ids=A");
}

#[test]
fn duplicate_ids_are_kept_in_order() {
    let request = FetchRequest {
        ids: vec!["A".to_string(), "A".to_string(), "B".to_string()],
        namespace: None,
    };
    let url = request.url("https://host".to_string());
    assert_eq!(url, "https://host/vectors/fetch?ids=A&ids=A&ids=B");
}

#[test]
fn no_ids_and_no_namespace_drops_the_question_mark() {
    let request = FetchRequest { ids: vec![], namespace: None };
    let url = request.url("https://host".to_string());
    assert_eq!(url, "https://host/vectors/fetch");
}

#[test]
fn no_ids_with_a_namespace_keeps_the_question_mark() {
    let request = FetchRequest { ids: vec![], namespace: Some("ns".to_string()) };
    let url = request.url("https://host".to_string());
    assert_eq!(url, "https://host/vectors/fetch?namespace=ns");
}
