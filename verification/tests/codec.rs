use alexandria::category::Category;
use alexandria::decode::decode_archive_item;
use alexandria::encode::{encode_failure, encode_item, encode_items, encode_success};
use alexandria::item::{from_fields, ArchiveItem, DecodeError};
use alexandria::responses::{FailureResponse, SuccessResponse};

fn item(category: Category, url: &str, title: &str) -> ArchiveItem {
    ArchiveItem { category, url: url.to_owned(), title: title.to_owned() }
}

#[test]
fn encode_item_exact_text() {
    let i = ArchiveItem::standard_test_item();
    assert_eq!(
        encode_item(&i),
        "{\"category\":\"computer_science\",\"itemUrl\":\"https://www.example.com\",\"title\":\"Example\"}"
    );
}

#[test]
fn round_trip_every_category() {
    let categories = vec![
        Category::Capitalism,
        Category::ComputerScience,
        Category::Career,
        Category::Rust,
        Category::Typescript,
    ];
    for c in categories {
        let original = item(c, "https://example.com/a", "A title");
        let text = encode_item(&original);
        let decoded = decode_archive_item(&text).expect("round trip must decode");
        assert_eq!(decoded.category, original.category);
        assert_eq!(decoded.url, original.url);
        assert_eq!(decoded.title, original.title);
    }
}

#[test]
fn round_trip_with_escaped_content() {
    let original = item(Category::Rust, "https://example.com/?q=\"x\\y\"", "line\none\ttab\r\u{8}\u{c}\u{1f}end");
    let text = encode_item(&original);
    let decoded = decode_archive_item(&text).expect("escaped content must decode");
    assert_eq!(decoded.url, original.url);
    assert_eq!(decoded.title, original.title);
}

#[test]
fn encoded_item_agrees_with_general_json_parser() {
    let original = item(Category::Typescript, "https://example.com", "quote \" and slash \\");
    let text = encode_item(&original);
    let value: serde_json::Value = serde_json::from_str(&text).expect("must be valid JSON");
    assert_eq!(value["category"], "typescript");
    assert_eq!(value["itemUrl"], "https://example.com");
    assert_eq!(value["title"], "quote \" and slash \\");
}

#[test]
fn decode_missing_fields_fails() {
    assert_eq!(
        decode_archive_item("{\"itemUrl\":\"u\",\"title\":\"t\"}").expect_err("must fail"),
        DecodeError::MissingCategory
    );
    assert_eq!(
        decode_archive_item("{\"category\":\"rust\",\"title\":\"t\"}").expect_err("must fail"),
        DecodeError::MissingUrl
    );
    assert_eq!(
        decode_archive_item("{\"category\":\"rust\",\"itemUrl\":\"u\"}").expect_err("must fail"),
        DecodeError::MissingTitle
    );
}

#[test]
fn decode_unknown_category_fails() {
    assert_eq!(
        decode_archive_item("{\"category\":\"cooking\",\"itemUrl\":\"u\",\"title\":\"t\"}").expect_err("must fail"),
        DecodeError::UnknownCategory
    );
    assert_eq!(
        decode_archive_item("{\"category\":\"Rust\",\"itemUrl\":\"u\",\"title\":\"t\"}").expect_err("must fail"),
        DecodeError::UnknownCategory
    );
}

#[test]
fn decode_non_json_fails() {
    assert_eq!(decode_archive_item("").expect_err("must fail"), DecodeError::MalformedJson);
    assert_eq!(decode_archive_item("not json at all").expect_err("must fail"), DecodeError::MalformedJson);
    assert_eq!(decode_archive_item("{\"category\":").expect_err("must fail"), DecodeError::MalformedJson);
}

#[test]
fn decode_non_string_fields_fail() {
    assert_eq!(
        decode_archive_item("{\"category\":7,\"itemUrl\":\"u\",\"title\":\"t\"}").expect_err("must fail"),
        DecodeError::MissingCategory
    );
    assert_eq!(
        decode_archive_item("{\"category\":\"rust\",\"itemUrl\":null,\"title\":\"t\"}").expect_err("must fail"),
        DecodeError::MissingUrl
    );
}

#[test]
fn from_fields_accepts_complete_fields() {
    let r = from_fields(
        Some("career".to_owned()),
        Some("https://example.com".to_owned()),
        Some("T".to_owned()),
    )
    .expect("complete fields must decode");
    assert_eq!(r.category, Category::Career);
    assert_eq!(r.url, "https://example.com");
    assert_eq!(r.title, "T");
}

#[test]
fn from_fields_rejects_incomplete_fields() {
    assert_eq!(
        from_fields(None, Some("u".to_owned()), Some("t".to_owned())).expect_err("must fail"),
        DecodeError::MissingCategory
    );
    assert_eq!(
        from_fields(Some("jazz".to_owned()), Some("u".to_owned()), Some("t".to_owned())).expect_err("must fail"),
        DecodeError::UnknownCategory
    );
    assert_eq!(
        from_fields(Some("rust".to_owned()), None, Some("t".to_owned())).expect_err("must fail"),
        DecodeError::MissingUrl
    );
    assert_eq!(
        from_fields(Some("rust".to_owned()), Some("u".to_owned()), None).expect_err("must fail"),
        DecodeError::MissingTitle
    );
}

#[test]
fn encode_items_empty_list() {
    let items: Vec<ArchiveItem> = Vec::new();
    assert_eq!(encode_items(&items), "[]");
}

#[test]
fn encode_items_two_records() {
    let items = vec![item(Category::Rust, "u1", "t1"), item(Category::Career, "u2", "t2")];
    assert_eq!(
        encode_items(&items),
        "[{\"category\":\"rust\",\"itemUrl\":\"u1\",\"title\":\"t1\"},{\"category\":\"career\",\"itemUrl\":\"u2\",\"title\":\"t2\"}]"
    );
}

#[test]
fn encode_envelopes_exact_text() {
    let ok = SuccessResponse { req_id: "req-1".to_owned(), body: "stored".to_owned() };
    assert_eq!(encode_success(&ok), "{\"req_id\":\"req-1\",\"body\":\"stored\"}");
    let bad = FailureResponse { body: "went wrong".to_owned() };
    assert_eq!(encode_failure(&bad), "{\"body\":\"went wrong\"}");
    assert_eq!(bad.message(), "went wrong");
}
