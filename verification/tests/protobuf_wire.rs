use kafka_ingest::cursor::ByteCursor;
use kafka_ingest::errors::ErrorKind;
use kafka_ingest::formats::FormatSpec;
use kafka_ingest::resolver::make_transcoder;

/// An encoded FileDescriptorSet holding one file `t.proto`, package `test`,
/// with one message `Msg { optional int64 a = 1; }`, written out field by
/// field.
fn descriptor_set_bytes() -> Vec<u8> {
    // FieldDescriptorProto: name "a", number 1, label optional, type int64.
    let field: Vec<u8> = vec![
        0x0a, 0x01, b'a', // name = "a"
        0x18, 0x01, // number = 1
        0x20, 0x01, // label = LABEL_OPTIONAL
        0x28, 0x03, // type = TYPE_INT64
    ];
    // DescriptorProto: name "Msg", one field.
    let mut message: Vec<u8> = vec![0x0a, 0x03, b'M', b's', b'g', 0x12, field.len() as u8];
    message.extend(&field);
    // FileDescriptorProto: name "t.proto", package "test", one message.
    let mut file: Vec<u8> = vec![
        0x0a, 0x07, b't', b'.', b'p', b'r', b'o', b't', b'o', 0x12, 0x04, b't', b'e', b's', b't',
        0x22, message.len() as u8,
    ];
    file.extend(&message);
    // FileDescriptorSet: one file.
    let mut set: Vec<u8> = vec![0x0a, file.len() as u8];
    set.extend(&file);
    set
}

fn protobuf_format(framed: bool, message_id: u8) -> FormatSpec {
    FormatSpec::Protobuf {
        descriptor_file: "t.pb".to_string(),
        message: "test.Msg".to_string(),
        confluent_wire_format: framed,
        schema_id_subject: None,
        schema_message_id: message_id,
    }
}

#[test]
fn framed_protobuf_row_end_to_end() {
    // Framed Protobuf: magic byte, big-endian schema ID 5, message index 9,
    // then the Protobuf encoding of {"a":1} (field 1 varint 1).
    let t = make_transcoder(&protobuf_format(true, 9), Some(Ok(5)), Some(Ok(descriptor_set_bytes())))
        .unwrap();
    let mut row = ByteCursor::new(b"{\"a\":1}".to_vec());
    let out = t.transcode(&mut row).unwrap().unwrap();
    assert_eq!(out, vec![0x00, 0, 0, 0, 5, 9, 0x08, 0x01]);
}

#[test]
fn unframed_protobuf_row_has_no_frame() {
    let t = make_transcoder(&protobuf_format(false, 0), None, Some(Ok(descriptor_set_bytes())))
        .unwrap();
    let mut row = ByteCursor::new(b"{\"a\":1}".to_vec());
    let out = t.transcode(&mut row).unwrap().unwrap();
    assert_eq!(out, vec![0x08, 0x01]);
}

#[test]
fn unknown_message_name_is_schema_error() {
    let f = FormatSpec::Protobuf {
        descriptor_file: "t.pb".to_string(),
        message: "test.NoSuchMsg".to_string(),
        confluent_wire_format: false,
        schema_id_subject: None,
        schema_message_id: 0,
    };
    let err = make_transcoder(&f, None, Some(Ok(descriptor_set_bytes()))).unwrap_err();
    assert_eq!(err.kind(), ErrorKind::Schema);
}

#[test]
fn protobuf_row_of_wrong_shape_is_encoding_error() {
    let t = make_transcoder(&protobuf_format(false, 0), None, Some(Ok(descriptor_set_bytes())))
        .unwrap();
    let mut row = ByteCursor::new(b"{\"a\":\"zip\"}".to_vec());
    let err = t.transcode(&mut row).unwrap_err();
    assert_eq!(err.kind(), ErrorKind::Encoding);
}
