use zero2prod::idempotency::{CachedResponse, HeaderPairRecord, RecordError};

fn pair(name: &str, value: &[u8]) -> HeaderPairRecord {
    HeaderPairRecord { name: name.to_string(), value: value.to_vec() }
}

#[test]
fn a_response_keeps_status_headers_and_body() {
    let response = CachedResponse::new(
        303,
        vec![pair("location", b"/admin/newsletters"), pair("set-cookie", b"a=1")],
        b"done".to_vec(),
    )
    .unwrap();
    assert_eq!(response.status(), 303);
    assert_eq!(response.headers().len(), 2);
    assert_eq!(response.headers()[0].name, "location");
    assert_eq!(response.headers()[0].value, b"/admin/newsletters".to_vec());
    assert_eq!(response.headers()[1].name, "set-cookie");
    assert_eq!(response.body(), &b"done".to_vec());
}

#[test]
fn header_names_are_stored_in_lower_case() {
    let response = CachedResponse::new(200, vec![pair("Content-Type", b"text/html")], vec![]).unwrap();
    assert_eq!(response.headers()[0].name, "content-type");
}

#[test]
fn a_header_may_occur_several_times() {
    let response = CachedResponse::new(
        200,
        vec![pair("set-cookie", b"a=1"), pair("set-cookie", b"b=2")],
        vec![],
    )
    .unwrap();
    assert_eq!(response.headers().len(), 2);
    assert_eq!(response.headers()[0].value, b"a=1".to_vec());
    assert_eq!(response.headers()[1].value, b"b=2".to_vec());
}

#[test]
fn status_codes_from_100_to_999_are_accepted() {
    assert!(CachedResponse::new(100, vec![], vec![]).is_ok());
    assert!(CachedResponse::new(999, vec![], vec![]).is_ok());
}

#[test]
fn status_codes_outside_100_to_999_are_rejected() {
    assert_eq!(CachedResponse::new(99, vec![], vec![]).unwrap_err(), RecordError::InvalidStatus);
    assert_eq!(CachedResponse::new(1000, vec![], vec![]).unwrap_err(), RecordError::InvalidStatus);
    assert_eq!(CachedResponse::new(0, vec![], vec![]).unwrap_err(), RecordError::InvalidStatus);
}

#[test]
fn a_negative_stored_status_is_rejected() {
    assert_eq!(
        CachedResponse::from_record(-1, vec![], vec![]).unwrap_err(),
        RecordError::InvalidStatus
    );
}

#[test]
fn the_first_invalid_header_is_reported() {
    let headers = vec![pair("ok", b"fine"), pair("bad name", b"fine"), pair("", b"fine")];
    assert_eq!(
        CachedResponse::new(200, headers, vec![]).unwrap_err(),
        RecordError::InvalidHeaderName(1)
    );
}

#[test]
fn an_empty_header_name_is_rejected() {
    assert_eq!(
        CachedResponse::new(200, vec![pair("", b"x")], vec![]).unwrap_err(),
        RecordError::InvalidHeaderName(0)
    );
}

#[test]
fn a_control_byte_in_a_header_value_is_rejected() {
    assert_eq!(
        CachedResponse::new(200, vec![pair("x-a", b"a\x01b")], vec![]).unwrap_err(),
        RecordError::InvalidHeaderValue(0)
    );
    assert_eq!(
        CachedResponse::new(200, vec![pair("x-a", b"ok"), pair("x-b", b"\x7f")], vec![]).unwrap_err(),
        RecordError::InvalidHeaderValue(1)
    );
}

#[test]
fn a_tab_and_high_bytes_in_a_header_value_are_accepted() {
    assert!(CachedResponse::new(200, vec![pair("x-a", b"a\tb\xff")], vec![]).is_ok());
}

#[test]
fn the_status_is_checked_before_the_headers() {
    assert_eq!(
        CachedResponse::new(42, vec![pair("bad name", b"x")], vec![]).unwrap_err(),
        RecordError::InvalidStatus
    );
}

#[test]
fn a_response_survives_the_way_through_its_record() {
    let response = CachedResponse::new(
        303,
        vec![pair("location", b"/admin/newsletters"), pair("set-cookie", b"a=1")],
        b"body".to_vec(),
    )
    .unwrap();
    let (status, headers, body) = response.to_record();
    assert_eq!(status, 303);
    let rebuilt = CachedResponse::from_record(status, headers, body).unwrap();
    assert_eq!(rebuilt.status(), response.status());
    assert_eq!(rebuilt.headers().len(), 2);
    assert_eq!(rebuilt.headers()[0].name, "location");
    assert_eq!(rebuilt.headers()[1].value, b"a=1".to_vec());
    assert_eq!(rebuilt.body(), response.body());
}

#[test]
fn a_clone_is_equal_in_every_part() {
    let response = CachedResponse::new(200, vec![pair("x-a", b"1")], b"b".to_vec()).unwrap();
    let copy = response.clone();
    assert_eq!(copy.status(), 200);
    assert_eq!(copy.headers()[0].name, "x-a");
    assert_eq!(copy.headers()[0].value, b"1".to_vec());
    assert_eq!(copy.body(), &b"b".to_vec());
}
