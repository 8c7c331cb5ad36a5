use kafka_ingest::errors::ErrorKind;
use kafka_ingest::formats::FormatSpec;
use kafka_ingest::formats::IngestConfig;
use kafka_ingest::formats::build_formats;
use kafka_ingest::formats::key_format;
use kafka_ingest::formats::value_format;
use kafka_ingest::pipeline::plan_ingest;

fn base_config() -> IngestConfig {
    IngestConfig {
        topic: "t".to_string(),
        partition: None,
        start_iteration: 0,
        repeat: 1,
        omit_key: false,
        omit_value: false,
        schema_id_var: None,
        key_schema_id_var: None,
        format_name: "bytes".to_string(),
        schema: None,
        descriptor_file: None,
        message: None,
        schema_id_subject: None,
        schema_message_id: None,
        confluent_wire_format: None,
        key_format_name: None,
        key_schema: None,
        key_descriptor_file: None,
        key_message: None,
        key_schema_id_subject: None,
        key_schema_message_id: None,
        key_terminator: None,
        timestamp: None,
        headers: None,
    }
}

#[test]
fn unknown_format_is_argument_error() {
    let mut cfg = base_config();
    cfg.format_name = "csv".to_string();
    let err = value_format(&cfg).unwrap_err();
    assert_eq!(err.kind(), ErrorKind::Argument);
}

#[test]
fn avro_without_schema_is_argument_error() {
    let mut cfg = base_config();
    cfg.format_name = "avro".to_string();
    let err = value_format(&cfg).unwrap_err();
    assert_eq!(err.kind(), ErrorKind::Argument);
}

#[test]
fn avro_framing_defaults_to_true() {
    let mut cfg = base_config();
    cfg.format_name = "avro".to_string();
    cfg.schema = Some("\"long\"".to_string());
    match value_format(&cfg).unwrap() {
        FormatSpec::Avro { schema, confluent_wire_format } => {
            assert_eq!(schema, "\"long\"");
            assert!(confluent_wire_format);
        },
        _ => panic!("expected an avro format"),
    }
}

#[test]
fn protobuf_defaults() {
    let mut cfg = base_config();
    cfg.format_name = "protobuf".to_string();
    cfg.descriptor_file = Some("d.pb".to_string());
    cfg.message = Some("test.Msg".to_string());
    match value_format(&cfg).unwrap() {
        FormatSpec::Protobuf { confluent_wire_format, schema_id_subject, schema_message_id, .. } => {
            assert!(!confluent_wire_format);
            assert!(schema_id_subject.is_none());
            assert_eq!(schema_message_id, 0);
        },
        _ => panic!("expected a protobuf format"),
    }
}

#[test]
fn key_schema_without_key_format_is_argument_error() {
    let mut cfg = base_config();
    cfg.key_schema = Some("\"long\"".to_string());
    let err = key_format(&cfg).unwrap_err();
    assert_eq!(err.kind(), ErrorKind::Argument);
    let err = build_formats(&cfg).unwrap_err();
    assert_eq!(err.kind(), ErrorKind::Argument);
}

#[test]
fn key_avro_without_key_schema_is_argument_error() {
    let mut cfg = base_config();
    cfg.key_format_name = Some("avro".to_string());
    let err = key_format(&cfg).unwrap_err();
    assert_eq!(err.kind(), ErrorKind::Argument);
}

#[test]
fn unknown_key_format_is_argument_error() {
    let mut cfg = base_config();
    cfg.key_format_name = Some("csv".to_string());
    let err = key_format(&cfg).unwrap_err();
    assert_eq!(err.kind(), ErrorKind::Argument);
}

#[test]
fn key_bytes_defaults_to_colon_terminator() {
    let mut cfg = base_config();
    cfg.key_format_name = Some("bytes".to_string());
    match key_format(&cfg).unwrap() {
        Some(FormatSpec::Bytes { terminator }) => assert_eq!(terminator, Some(b':')),
        _ => panic!("expected a bytes key format"),
    }
}

#[test]
fn key_terminator_must_be_ascii() {
    let mut cfg = base_config();
    cfg.key_format_name = Some("bytes".to_string());
    cfg.key_terminator = Some('|');
    match key_format(&cfg).unwrap() {
        Some(FormatSpec::Bytes { terminator }) => assert_eq!(terminator, Some(b'|')),
        _ => panic!("expected a bytes key format"),
    }
    cfg.key_terminator = Some('\u{00e9}');
    let err = key_format(&cfg).unwrap_err();
    assert_eq!(err.kind(), ErrorKind::Argument);
}

#[test]
fn framing_mismatch_is_argument_error() {
    // Framed avro key beside an unframed avro value, and the reverse.
    let mut cfg = base_config();
    cfg.format_name = "avro".to_string();
    cfg.schema = Some("\"long\"".to_string());
    cfg.confluent_wire_format = Some(false);
    cfg.key_format_name = Some("protobuf".to_string());
    cfg.key_descriptor_file = Some("d.pb".to_string());
    cfg.key_message = Some("test.Msg".to_string());
    // Shared flag: both false, consistent.
    assert!(build_formats(&cfg).is_ok());
}

#[test]
fn framing_mismatch_avro_value_protobuf_key() {
    // The avro value defaults to framed while an explicit flag cannot
    // diverge per slot, so build a mismatch from the defaults: the avro
    // value defaults to framed, the protobuf key to unframed.
    let mut cfg = base_config();
    cfg.format_name = "avro".to_string();
    cfg.schema = Some("\"long\"".to_string());
    cfg.key_format_name = Some("protobuf".to_string());
    cfg.key_descriptor_file = Some("d.pb".to_string());
    cfg.key_message = Some("test.Msg".to_string());
    let err = build_formats(&cfg).unwrap_err();
    assert_eq!(err.kind(), ErrorKind::Argument);
}

#[test]
fn bytes_key_never_joins_framing_check() {
    let mut cfg = base_config();
    cfg.format_name = "avro".to_string();
    cfg.schema = Some("\"long\"".to_string());
    cfg.key_format_name = Some("bytes".to_string());
    assert!(build_formats(&cfg).is_ok());
}

#[test]
fn plan_derives_physical_topic_and_carries_settings() {
    let mut cfg = base_config();
    cfg.topic = "widgets".to_string();
    cfg.partition = Some(3);
    cfg.start_iteration = 5;
    cfg.repeat = 7;
    cfg.timestamp = Some(123);
    let plan = plan_ingest(&cfg, "4096").unwrap();
    assert_eq!(plan.topic_name, "testdrive-widgets-4096");
    assert_eq!(plan.partition, Some(3));
    assert_eq!(plan.start_iteration, 5);
    assert_eq!(plan.repeat, 7);
    assert_eq!(plan.timestamp, Some(123));
    assert!(plan.headers.is_empty());
    match plan.value_format {
        FormatSpec::Bytes { terminator } => assert_eq!(terminator, None),
        _ => panic!("expected a bytes value format"),
    }
    assert!(plan.key_format.is_none());
}

#[test]
fn plan_rejects_invalid_config() {
    let mut cfg = base_config();
    cfg.key_schema = Some("\"long\"".to_string());
    let err = plan_ingest(&cfg, "1").unwrap_err();
    assert_eq!(err.kind(), ErrorKind::Argument);
}
