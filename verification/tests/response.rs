use githuback::error::EnumerationError;
use githuback::record::RawRecord;
use githuback::response::{
    decode_records, read_page, read_record, read_records, status_is_success, PageResponse,
};

fn text(value: &str) -> serde_json::Value {
    serde_json::Value::String(value.to_string())
}

fn object(members: &[(&str, serde_json::Value)]) -> serde_json::Value {
    let mut map = serde_json::Map::new();
    for (key, value) in members {
        map.insert(key.to_string(), value.clone());
    }
    serde_json::Value::Object(map)
}

#[test]
fn success_is_200_to_299() {
    assert!(!status_is_success(0));
    assert!(!status_is_success(199));
    assert!(status_is_success(200));
    assert!(status_is_success(204));
    assert!(status_is_success(299));
    assert!(!status_is_success(300));
    assert!(!status_is_success(404));
    assert!(!status_is_success(500));
    assert!(!status_is_success(u16::MAX));
}

#[test]
fn record_reads_name_and_html_url() {
    let item = object(&[
        ("clone_url", text("https://github.com/octo/a.git")),
        ("html_url", text("https://github.com/octo/a")),
        ("name", text("a")),
    ]);
    assert_eq!(
        read_record(&item),
        RawRecord {
            name: Some("a".to_string()),
            clone_url: Some("https://github.com/octo/a".to_string()),
        }
    );
}

#[test]
fn record_of_a_string_has_no_field() {
    assert_eq!(read_record(&text("name")), RawRecord { name: None, clone_url: None });
}

#[test]
fn record_with_null_and_number_fields_has_no_field() {
    let item = object(&[
        ("name", serde_json::Value::Null),
        ("html_url", serde_json::Value::Number(serde_json::Number::from(3))),
    ]);
    assert_eq!(read_record(&item), RawRecord { name: None, clone_url: None });
}

#[test]
fn records_of_an_array_come_in_order() {
    let document = serde_json::Value::Array(vec![
        object(&[("name", text("a")), ("html_url", text("u"))]),
        object(&[("name", text("b"))]),
    ]);
    assert_eq!(
        read_records(&document),
        Some(vec![
            RawRecord { name: Some("a".to_string()), clone_url: Some("u".to_string()) },
            RawRecord { name: Some("b".to_string()), clone_url: None },
        ])
    );
}

#[test]
fn records_of_an_empty_array_are_none_at_all() {
    assert_eq!(read_records(&serde_json::Value::Array(Vec::new())), Some(Vec::new()));
}

#[test]
fn records_of_an_object_are_refused() {
    assert_eq!(read_records(&object(&[("name", text("a"))])), None);
    assert_eq!(read_records(&serde_json::Value::Null), None);
    assert_eq!(read_records(&text("[]")), None);
}

#[test]
fn decode_parses_the_bytes() {
    let body = b" [ {\"name\":\"caf\\u00e9\",\"html_url\":\"https://example.org/x\"} ] ";
    assert_eq!(
        decode_records(body),
        Some(vec![RawRecord {
            name: Some("caf\u{e9}".to_string()),
            clone_url: Some("https://example.org/x".to_string()),
        }])
    );
}

#[test]
fn decode_refuses_what_is_no_json_array() {
    assert_eq!(decode_records(b""), None);
    assert_eq!(decode_records(b"[{\"name\": \"a\"}"), None);
    assert_eq!(decode_records(b"[] trailing"), None);
    assert_eq!(decode_records(b"{}"), None);
    assert_eq!(decode_records(b"42"), None);
    assert_eq!(decode_records(&[0xff, 0xfe]), None);
}

#[test]
fn page_has_next_exactly_with_a_link_header() {
    let with = read_page(PageResponse {
        status: 200,
        link: Some(String::new()),
        body: b"[{\"name\":\"a\",\"html_url\":\"u\"}]".to_vec(),
    })
    .unwrap();
    assert!(with.has_next);
    assert_eq!(with.records.len(), 1);
    let without =
        read_page(PageResponse { status: 200, link: None, body: b"[]".to_vec() }).unwrap();
    assert!(!without.has_next);
    assert!(without.records.is_empty());
}

#[test]
fn page_keeps_incomplete_records_for_the_enumerator() {
    let page = read_page(PageResponse { status: 201, link: None, body: b"[{}, 1]".to_vec() })
        .unwrap();
    assert_eq!(
        page.records,
        vec![
            RawRecord { name: None, clone_url: None },
            RawRecord { name: None, clone_url: None }
        ]
    );
}

#[test]
fn page_of_an_error_status_is_the_status_and_the_body() {
    let result = read_page(PageResponse {
        status: 503,
        link: Some("x".to_string()),
        body: b"[]".to_vec(),
    });
    assert_eq!(result, Err(EnumerationError::HttpStatus { status: 503, body: b"[]".to_vec() }));
}

#[test]
fn page_of_a_malformed_body_is_an_error() {
    let result = read_page(PageResponse { status: 200, link: None, body: b"nope".to_vec() });
    assert_eq!(result, Err(EnumerationError::MalformedBody));
}
