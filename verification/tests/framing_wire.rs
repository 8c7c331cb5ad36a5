use kafka_ingest::cursor::ByteCursor;
use kafka_ingest::errors::ErrorKind;
use kafka_ingest::formats::FormatSpec;
use kafka_ingest::framing::frame_payload;
use kafka_ingest::resolver::make_transcoder;
use kafka_ingest::transcoder::Transcoder;

const LONG_RECORD_SCHEMA: &str =
    "{\"type\":\"record\",\"name\":\"r\",\"fields\":[{\"name\":\"a\",\"type\":\"long\"}]}";

#[test]
fn frame_layout_is_magic_then_big_endian_id() {
    let framed = frame_payload(7, None, vec![0xAB, 0xCD]);
    assert_eq!(framed, vec![0x00, 0, 0, 0, 7, 0xAB, 0xCD]);
}

#[test]
fn frame_layout_big_endian_order() {
    let framed = frame_payload(0x01020304, None, vec![]);
    assert_eq!(framed, vec![0x00, 1, 2, 3, 4]);
}

#[test]
fn frame_layout_negative_id() {
    let framed = frame_payload(-1, None, vec![]);
    assert_eq!(framed, vec![0x00, 255, 255, 255, 255]);
}

#[test]
fn frame_layout_protobuf_message_index() {
    let framed = frame_payload(256, Some(9), vec![0x42]);
    assert_eq!(framed, vec![0x00, 0, 0, 1, 0, 9, 0x42]);
}

#[test]
fn framed_avro_row_end_to_end() {
    // format=avro, confluent-wire-format=true, the registry answered with
    // schema ID 7: the payload is the frame, then the Avro binary encoding
    // of {"a":1} (the zig-zag long 1, one byte 0x02).
    let f = FormatSpec::Avro {
        schema: LONG_RECORD_SCHEMA.to_string(),
        confluent_wire_format: true,
    };
    let t = make_transcoder(&f, Some(Ok(7)), None).unwrap();
    let mut row = ByteCursor::new(b"{\"a\":1}".to_vec());
    let out = t.transcode(&mut row).unwrap().unwrap();
    assert_eq!(out, vec![0x00, 0, 0, 0, 7, 0x02]);
    assert!(row.is_empty());
}

#[test]
fn plain_avro_row_has_no_frame() {
    let f = FormatSpec::Avro {
        schema: LONG_RECORD_SCHEMA.to_string(),
        confluent_wire_format: false,
    };
    let t = make_transcoder(&f, None, None).unwrap();
    let mut row = ByteCursor::new(b"{\"a\":1}".to_vec());
    let out = t.transcode(&mut row).unwrap().unwrap();
    assert_eq!(out, vec![0x02]);
}

#[test]
fn exhausted_row_yields_no_structured_field() {
    let f = FormatSpec::Avro {
        schema: LONG_RECORD_SCHEMA.to_string(),
        confluent_wire_format: false,
    };
    let t = make_transcoder(&f, None, None).unwrap();
    let mut row = ByteCursor::new(b"   ".to_vec());
    assert!(t.transcode(&mut row).unwrap().is_none());
    let mut row = ByteCursor::new(Vec::new());
    assert!(t.transcode(&mut row).unwrap().is_none());
}

#[test]
fn malformed_json_row_is_encoding_error() {
    let f = FormatSpec::Avro {
        schema: LONG_RECORD_SCHEMA.to_string(),
        confluent_wire_format: false,
    };
    let t = make_transcoder(&f, None, None).unwrap();
    let mut row = ByteCursor::new(b"{nope".to_vec());
    let err = t.transcode(&mut row).unwrap_err();
    assert_eq!(err.kind(), ErrorKind::Encoding);
}

#[test]
fn structured_key_consumes_one_json_value_only() {
    // The key codec parses exactly one JSON value off the front; the raw
    // remainder stays for the value codec.
    let f = FormatSpec::Avro {
        schema: LONG_RECORD_SCHEMA.to_string(),
        confluent_wire_format: false,
    };
    let kt = make_transcoder(&f, None, None).unwrap();
    let vt = Transcoder::Bytes { terminator: None };
    let mut row = ByteCursor::new(b"{\"a\":1} tail".to_vec());
    let key = kt.transcode(&mut row).unwrap().unwrap();
    assert_eq!(key, vec![0x02]);
    let value = vt.transcode(&mut row).unwrap().unwrap();
    assert_eq!(value, b" tail".to_vec());
}

#[test]
fn avro_value_of_wrong_shape_is_encoding_error() {
    let f = FormatSpec::Avro {
        schema: LONG_RECORD_SCHEMA.to_string(),
        confluent_wire_format: false,
    };
    let t = make_transcoder(&f, None, None).unwrap();
    let mut row = ByteCursor::new(b"{\"a\":\"not a long\"}".to_vec());
    let err = t.transcode(&mut row).unwrap_err();
    assert_eq!(err.kind(), ErrorKind::Encoding);
}
