use kafka_ingest::errors::ErrorKind;
use kafka_ingest::headers::HeaderObj;
use kafka_ingest::headers::HeaderVal;
use kafka_ingest::headers::HeadersJson;
use kafka_ingest::headers::JsonNum;
use kafka_ingest::headers::build_headers;
use kafka_ingest::json::parse_headers_option;

#[test]
fn single_object_headers() {
    // headers = {"k1":"v1","k2":[1,2,3]}: two entries, k1 = the UTF-8
    // bytes of "v1", k2 = the bytes [1,2,3].
    let h = parse_headers_option("{\"k1\":\"v1\",\"k2\":[1,2,3]}").unwrap();
    let entries = build_headers(&h).unwrap();
    assert_eq!(entries.len(), 2);
    assert_eq!(entries[0].name, "k1");
    assert_eq!(entries[0].value, Some(b"v1".to_vec()));
    assert_eq!(entries[1].name, "k2");
    assert_eq!(entries[1].value, Some(vec![1u8, 2, 3]));
}

#[test]
fn array_of_objects_applies_in_order_and_keeps_duplicates() {
    let h = parse_headers_option("[{\"k\":\"a\"},{\"k\":\"b\"}]").unwrap();
    let entries = build_headers(&h).unwrap();
    assert_eq!(entries.len(), 2);
    assert_eq!(entries[0].name, "k");
    assert_eq!(entries[0].value, Some(b"a".to_vec()));
    assert_eq!(entries[1].name, "k");
    assert_eq!(entries[1].value, Some(b"b".to_vec()));
}

#[test]
fn null_header_has_no_value() {
    let h = parse_headers_option("{\"k\":null}").unwrap();
    let entries = build_headers(&h).unwrap();
    assert_eq!(entries.len(), 1);
    assert!(entries[0].value.is_none());
}

#[test]
fn non_object_headers_rejected() {
    let h = parse_headers_option("\"zip\"").unwrap();
    let err = build_headers(&h).unwrap_err();
    assert_eq!(err.kind(), ErrorKind::Argument);
}

#[test]
fn array_element_that_is_no_map_rejected() {
    let h = parse_headers_option("[{\"k\":\"a\"},7]").unwrap();
    let err = build_headers(&h).unwrap_err();
    assert_eq!(err.kind(), ErrorKind::Argument);
}

#[test]
fn bool_header_value_rejected() {
    let h = parse_headers_option("{\"k\":true}").unwrap();
    let err = build_headers(&h).unwrap_err();
    assert_eq!(err.kind(), ErrorKind::Argument);
}

#[test]
fn header_byte_out_of_range_rejected() {
    let h = parse_headers_option("{\"k\":[1,256]}").unwrap();
    let err = build_headers(&h).unwrap_err();
    assert_eq!(err.kind(), ErrorKind::Argument);

    let h = parse_headers_option("{\"k\":[-1]}").unwrap();
    let err = build_headers(&h).unwrap_err();
    assert_eq!(err.kind(), ErrorKind::Argument);
}

#[test]
fn non_number_in_header_array_rejected() {
    let h = parse_headers_option("{\"k\":[1,\"x\"]}").unwrap();
    let err = build_headers(&h).unwrap_err();
    assert_eq!(err.kind(), ErrorKind::Argument);
}

#[test]
fn fractional_number_in_header_array_rejected() {
    let h = parse_headers_option("{\"k\":[1.5]}").unwrap();
    let err = build_headers(&h).unwrap_err();
    assert_eq!(err.kind(), ErrorKind::Argument);
}

#[test]
fn headers_text_that_is_no_json_rejected() {
    let err = parse_headers_option("{nope").unwrap_err();
    assert_eq!(err.kind(), ErrorKind::Argument);
}

#[test]
fn headers_built_from_model_directly() {
    let h = HeadersJson::Obj(HeaderObj {
        entries: vec![
            ("a".to_string(), HeaderVal::Str("x".to_string())),
            ("b".to_string(), HeaderVal::Arr(vec![JsonNum::Int(0), JsonNum::Int(255)])),
            ("c".to_string(), HeaderVal::Null),
        ],
    });
    let entries = build_headers(&h).unwrap();
    assert_eq!(entries.len(), 3);
    assert_eq!(entries[0].value, Some(b"x".to_vec()));
    assert_eq!(entries[1].value, Some(vec![0u8, 255]));
    assert!(entries[2].value.is_none());
}
