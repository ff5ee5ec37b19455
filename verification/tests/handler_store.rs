use alexandria::category::Category;
use alexandria::handler::{get_success_body, post_success_body, unsupported_method_body};
use alexandria::item::ArchiveItem;
use alexandria::store::{
    decode_rows, item_conversion_failure, localstack_selected, log_dynamodb_error,
    put_error_diagnostic, scan_failure, table_name, RowFields, StoreErrorKind,
};

fn row(category: Option<&str>, url: Option<&str>, title: Option<&str>) -> RowFields {
    RowFields {
        category: category.map(|s| s.to_owned()),
        url: url.map(|s| s.to_owned()),
        title: title.map(|s| s.to_owned()),
    }
}

#[test]
fn scan_of_empty_table_is_empty_list() {
    let rows: Vec<RowFields> = Vec::new();
    let decoded = decode_rows(&rows).expect("an empty table is success, not an error");
    assert_eq!(decoded.len(), 0);
}

#[test]
fn scan_rows_decode_in_order() {
    let rows = vec![
        row(Some("rust"), Some("https://a"), Some("A")),
        row(Some("capitalism"), Some("https://b"), Some("B")),
    ];
    let decoded = decode_rows(&rows).expect("well-formed rows must decode");
    assert_eq!(decoded.len(), 2);
    assert_eq!(decoded[0].category, Category::Rust);
    assert_eq!(decoded[0].title, "A");
    assert_eq!(decoded[1].category, Category::Capitalism);
    assert_eq!(decoded[1].url, "https://b");
}

#[test]
fn scan_fails_whole_on_one_bad_row() {
    let rows = vec![
        row(Some("rust"), Some("https://a"), Some("A")),
        row(Some("gardening"), Some("https://b"), Some("B")),
    ];
    let err = decode_rows(&rows).expect_err("one undecodable row fails the whole scan");
    assert_eq!(err.body, "The lambda encountered an error and could not parse table contents");

    let missing = vec![row(None, Some("https://c"), Some("C"))];
    assert!(decode_rows(&missing).is_err());
}

#[test]
fn stored_item_comes_back_from_scan() {
    // An item written with its wire fields is found again by decoding the
    // scanned rows.
    let item = ArchiveItem::standard_test_item();
    let rows = vec![
        row(Some("rust"), Some("https://elsewhere"), Some("Other")),
        RowFields {
            category: Some(item.category.wire_label()),
            url: Some(item.url.clone()),
            title: Some(item.title.clone()),
        },
    ];
    let decoded = decode_rows(&rows).expect("all rows decode");
    assert!(decoded
        .iter()
        .any(|d| d.category == item.category && d.url == item.url && d.title == item.title));
}

#[test]
fn store_failure_messages() {
    assert_eq!(
        put_error_diagnostic(&StoreErrorKind::ResourceNotFound, "no table"),
        "Resource not found - no table"
    );
    assert_eq!(
        put_error_diagnostic(&StoreErrorKind::InvalidEndpoint, "bad host"),
        "Invalid endpoint - bad host"
    );
    assert_eq!(
        put_error_diagnostic(&StoreErrorKind::InternalServerError, "oops"),
        "Internal server error - oops"
    );
    assert_eq!(put_error_diagnostic(&StoreErrorKind::Unhandled, "x"), "Unhandled error - x");
    assert_eq!(put_error_diagnostic(&StoreErrorKind::Other, "ignored"), "Unhandled  by lambda");
    assert_eq!(
        log_dynamodb_error("Resource not found - no table".to_owned()).body,
        "The lambda encountered an error and your message was not saved"
    );
    assert_eq!(
        item_conversion_failure().body,
        "The lambda encountered an error and could not parse item"
    );
    assert_eq!(
        scan_failure().body,
        "The lambda encountered an error and could not retrieve table contents"
    );
    assert_eq!(table_name(), "LibraryOfAlexandria");
}

#[test]
fn localstack_toggle() {
    assert!(localstack_selected(&"true".to_owned()));
    assert!(!localstack_selected(&"false".to_owned()));
    assert!(!localstack_selected(&"".to_owned()));
    assert!(!localstack_selected(&"TRUE".to_owned()));
}

#[test]
fn unsupported_method_text() {
    assert_eq!(unsupported_method_body(), "Unsupported method");
}

#[test]
fn post_then_get_example() {
    // A POST body arrives, decodes, and is acknowledged with an envelope
    // carrying the request id and a confirmation echoing the store's
    // acknowledgement.
    let body = "{\"category\":\"rust\",\"itemUrl\":\"https://example.com\",\"title\":\"Example\"}";
    let item = alexandria::decode::decode_archive_item(body).expect("the example body decodes");
    assert_eq!(item.title, "Example");

    let envelope = post_success_body("req-42".to_owned(), "PutItemOutput");
    let value: serde_json::Value = serde_json::from_str(&envelope).expect("envelope is JSON");
    assert_eq!(value["req_id"], "req-42");
    assert_eq!(value["body"], "Successfully uploaded to DynamoDB with result PutItemOutput");

    // A following GET answers an envelope whose body is the JSON-encoded
    // list, and that list holds the stored item.
    let stored = vec![item];
    let get_envelope = get_success_body("req-43".to_owned(), &stored);
    let value: serde_json::Value = serde_json::from_str(&get_envelope).expect("envelope is JSON");
    assert_eq!(value["req_id"], "req-43");
    let inner: serde_json::Value =
        serde_json::from_str(value["body"].as_str().expect("body is a string"))
            .expect("body is JSON text");
    let listed = inner.as_array().expect("body decodes to an array");
    assert_eq!(listed.len(), 1);
    assert_eq!(listed[0]["title"], "Example");
}

#[test]
fn get_of_nothing_is_still_a_list() {
    let stored: Vec<ArchiveItem> = Vec::new();
    let envelope = get_success_body("req-9".to_owned(), &stored);
    let value: serde_json::Value = serde_json::from_str(&envelope).expect("envelope is JSON");
    let body = value["body"].as_str().expect("body is present");
    assert_eq!(body, "[]");
}
