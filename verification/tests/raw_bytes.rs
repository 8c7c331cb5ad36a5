use kafka_ingest::cursor::ByteCursor;
use kafka_ingest::errors::ErrorKind;
use kafka_ingest::escape::escape;
use kafka_ingest::escape::unescape;
use kafka_ingest::record::RowCodec;
use kafka_ingest::transcoder::Transcoder;

#[test]
fn unescape_plain_bytes() {
    let out = unescape(b"hello").unwrap();
    assert_eq!(out, b"hello".to_vec());
}

#[test]
fn unescape_backslash_and_hex() {
    let out = unescape(b"a\\\\b\\x3ac").unwrap();
    assert_eq!(out, b"a\\b:c".to_vec());
}

#[test]
fn unescape_rejects_trailing_backslash() {
    let err = unescape(b"abc\\").unwrap_err();
    assert_eq!(err.kind(), ErrorKind::Encoding);
}

#[test]
fn unescape_rejects_unknown_escape() {
    let err = unescape(b"\\q").unwrap_err();
    assert_eq!(err.kind(), ErrorKind::Encoding);
}

#[test]
fn unescape_rejects_short_hex_escape() {
    let err = unescape(b"\\x3").unwrap_err();
    assert_eq!(err.kind(), ErrorKind::Encoding);
}

#[test]
fn escape_then_unescape_recovers_bytes() {
    let original: Vec<u8> = vec![b'a', b':', b'\\', 0x00, 0xff, b'z'];
    let escaped = escape(&original, b':');
    assert!(!escaped.contains(&b':'));
    let back = unescape(&escaped).unwrap();
    assert_eq!(back, original);
}

#[test]
fn cursor_take_until_strips_terminator() {
    let mut c = ByteCursor::new(b"abc:xyz".to_vec());
    let taken = c.take_until(b':');
    assert_eq!(taken, b"abc".to_vec());
    let rest = c.take_rest();
    assert_eq!(rest, b"xyz".to_vec());
}

#[test]
fn cursor_take_until_without_terminator_takes_all() {
    let mut c = ByteCursor::new(b"abcxyz".to_vec());
    let taken = c.take_until(b':');
    assert_eq!(taken, b"abcxyz".to_vec());
    assert!(c.is_empty());
}

#[test]
fn bytes_value_without_terminator() {
    // format=bytes, no key format: the whole row is the value, the key is
    // absent.
    let codec = RowCodec {
        key: None,
        value: Transcoder::Bytes { terminator: None },
        omit_key: false,
        omit_value: false,
    };
    let (key, value) = codec.encode_row(b"hello".to_vec()).unwrap();
    assert!(key.is_none());
    assert_eq!(value, Some(b"hello".to_vec()));
}

#[test]
fn bytes_key_and_value_split_on_default_terminator() {
    // format=bytes with key-format=bytes and the default `:` terminator.
    let codec = RowCodec {
        key: Some(Transcoder::Bytes { terminator: Some(b':') }),
        value: Transcoder::Bytes { terminator: None },
        omit_key: false,
        omit_value: false,
    };
    let (key, value) = codec.encode_row(b"abc:xyz".to_vec()).unwrap();
    assert_eq!(key, Some(b"abc".to_vec()));
    assert_eq!(value, Some(b"xyz".to_vec()));
}

#[test]
fn empty_raw_field_is_absent_not_empty() {
    // A row starting with the terminator has an empty key slice: the key is
    // absent, not a zero-length payload.
    let codec = RowCodec {
        key: Some(Transcoder::Bytes { terminator: Some(b':') }),
        value: Transcoder::Bytes { terminator: None },
        omit_key: false,
        omit_value: false,
    };
    let (key, value) = codec.encode_row(b":xyz".to_vec()).unwrap();
    assert!(key.is_none());
    assert_eq!(value, Some(b"xyz".to_vec()));

    let (key, value) = codec.encode_row(b"abc:".to_vec()).unwrap();
    assert_eq!(key, Some(b"abc".to_vec()));
    assert!(value.is_none());
}

#[test]
fn omit_flags_suppress_fields() {
    let codec = RowCodec {
        key: Some(Transcoder::Bytes { terminator: Some(b':') }),
        value: Transcoder::Bytes { terminator: None },
        omit_key: true,
        omit_value: true,
    };
    let (key, value) = codec.encode_row(b"abc:xyz".to_vec()).unwrap();
    assert!(key.is_none());
    assert!(value.is_none());
}

#[test]
fn malformed_escape_in_row_is_encoding_error() {
    let codec = RowCodec {
        key: None,
        value: Transcoder::Bytes { terminator: None },
        omit_key: false,
        omit_value: false,
    };
    let err = codec.encode_row(b"bad\\q".to_vec()).unwrap_err();
    assert_eq!(err.kind(), ErrorKind::Encoding);
}
