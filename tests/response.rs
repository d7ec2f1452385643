use elastic_types::response::{DocumentResult, UpdateResponse};

fn response(result: DocumentResult) -> UpdateResponse {
    UpdateResponse {
        index: "testindex".to_string(),
        ty: "testtype".to_string(),
        id: "1".to_string(),
        version: Some(2),
        routing: None,
        result,
    }
}

#[test]
fn updated_only_for_updated_result() {
    assert!(response(DocumentResult::Updated).updated());
    assert!(!response(DocumentResult::Noop).updated());
    assert!(!response(DocumentResult::Created).updated());
}

#[test]
fn response_getters() {
    let r = response(DocumentResult::Updated);
    assert_eq!("testindex", r.index());
    assert_eq!("testtype", r.ty());
    assert_eq!("1", r.id());
    assert_eq!(Some(2), r.version());
}

#[test]
fn status_classification() {
    assert!(UpdateResponse::is_ok(200));
    assert!(UpdateResponse::is_ok(299));
    assert!(!UpdateResponse::is_ok(199));
    assert!(!UpdateResponse::is_ok(300));
    assert!(!UpdateResponse::is_ok(404));
}

#[test]
fn result_names() {
    assert_eq!(Some(DocumentResult::Created), DocumentResult::from_name("created"));
    assert_eq!(Some(DocumentResult::Updated), DocumentResult::from_name("updated"));
    assert_eq!(Some(DocumentResult::Deleted), DocumentResult::from_name("deleted"));
    assert_eq!(Some(DocumentResult::NotFound), DocumentResult::from_name("not_found"));
    assert_eq!(Some(DocumentResult::Noop), DocumentResult::from_name("noop"));
    assert_eq!(None, DocumentResult::from_name("Updated"));
}
