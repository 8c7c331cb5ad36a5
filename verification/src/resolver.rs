//! Resolving a requested format into a ready transcoder.
//!
//! Resolution runs once per slot, before the first row is encoded. The
//! registry and the descriptor store are outside collaborators: this module
//! decides which operation each slot needs, and turns the operation's
//! result — whatever it was — into a transcoder or a schema error.

use vstd::prelude::*;
use vstd::string::StringExecFns;

use crate::avro::avro_schema_parses;
use crate::avro::parse_avro_schema;
use crate::errors::ErrorKind;
use crate::errors::IngestError;
use crate::formats::FormatSpec;
use crate::protobuf::decode_and_find_message;
use crate::protobuf::descriptor_has_message;
use crate::transcoder::Transcoder;

verus! {

/// Which encoding role a format fills within a record.
#[derive(Clone, Copy, PartialEq, Eq, Structural)]
pub enum Slot {
    Key,
    Value,
}

/// The registry's default subject for a slot: the topic name with the
/// slot's suffix.
pub fn slot_subject(topic_name: &str, slot: Slot) -> (r: String)
    ensures
        slot == Slot::Key ==> r@ == topic_name@ + "-key"@,
        slot == Slot::Value ==> r@ == topic_name@ + "-value"@,
{
    let mut s = topic_name.to_owned();
    match slot {
        Slot::Key => s.append("-key"),
        Slot::Value => s.append("-value"),
    }
    s
}

/// The physical topic of a run: the logical topic wrapped in the
/// run-scoped prefix and seed.
pub fn physical_topic(topic: &str, seed: &str) -> (r: String)
    ensures
        r@ == "testdrive-"@ + topic@ + "-"@ + seed@,
{
    let mut s = "testdrive-".to_owned();
    s.append(topic);
    s.append("-");
    s.append(seed);
    proof {
        assert(("testdrive-"@ + topic@ + "-"@) + seed@ =~= "testdrive-"@ + topic@ + "-"@ + seed@);
    }
    s
}

/// The registry operation one slot needs before its rows can be encoded.
pub enum RegistryOp {
    /// Register the schema text under the subject; the registry answers
    /// with a schema ID.
    PublishAvro { subject: String, schema: String },
    /// Look up the latest schema ID under the subject.
    LookupId { subject: String },
    /// No registry interaction.
    NoOp,
}

/// Decides the registry operation for one slot: framed Avro publishes,
/// framed Protobuf looks up (under its override subject when one is given),
/// everything else stays local.
pub fn registry_op(f: &FormatSpec, default_subject: &str) -> (r: RegistryOp)
    ensures
        match f {
            FormatSpec::Avro { schema, confluent_wire_format } => {
                if *confluent_wire_format {
                    r matches RegistryOp::PublishAvro { subject, schema: s } && subject@
                        == default_subject@ && s@ == schema@
                } else {
                    r is NoOp
                }
            },
            FormatSpec::Protobuf { confluent_wire_format, schema_id_subject, .. } => {
                if *confluent_wire_format {
                    r matches RegistryOp::LookupId { subject } && subject@ == (
                    match schema_id_subject {
                        Option::Some(o) => o@,
                        Option::None => default_subject@,
                    })
                } else {
                    r is NoOp
                }
            },
            FormatSpec::Bytes { .. } => r is NoOp,
        },
{
    match f {
        FormatSpec::Avro { schema, confluent_wire_format } => {
            if *confluent_wire_format {
                RegistryOp::PublishAvro {
                    subject: default_subject.to_owned(),
                    schema: schema.clone(),
                }
            } else {
                RegistryOp::NoOp
            }
        },
        FormatSpec::Protobuf { confluent_wire_format, schema_id_subject, .. } => {
            if *confluent_wire_format {
                RegistryOp::LookupId {
                    subject: match schema_id_subject {
                        Option::Some(o) => o.clone(),
                        Option::None => default_subject.to_owned(),
                    },
                }
            } else {
                RegistryOp::NoOp
            }
        },
        FormatSpec::Bytes { .. } => RegistryOp::NoOp,
    }
}

fn schema_error(msg: String) -> (r: IngestError)
    ensures
        r.kind == ErrorKind::Schema,
{
    IngestError::new(ErrorKind::Schema, msg)
}

/// Turns a format and its collaborators' answers into a ready transcoder.
///
/// `registry_result` is the outcome of the slot's registry operation (when
/// one was needed), and `descriptor_bytes` the outcome of reading the
/// descriptor file (for Protobuf). A registry or storage failure, an
/// unparsable schema or descriptor set, and an unknown message name are all
/// schema errors; raw bytes resolve as they stand.
pub fn make_transcoder(
    f: &FormatSpec,
    registry_result: Option<Result<i32, String>>,
    descriptor_bytes: Option<Result<Vec<u8>, String>>,
) -> (r: Result<Transcoder, IngestError>)
    ensures
        r matches Err(e) ==> e.kind == ErrorKind::Schema,
        match f {
            FormatSpec::Bytes { terminator } => r matches Ok(t) && t matches Transcoder::Bytes {
                terminator: t2,
            } && t2 == *terminator,
            FormatSpec::Avro { schema, confluent_wire_format } => {
                if *confluent_wire_format {
                    match registry_result {
                        Option::Some(Ok(id)) => {
                            &&& r is Ok <==> avro_schema_parses(schema@)
                            &&& r matches Ok(t) ==> t matches Transcoder::ConfluentAvro {
                                schema_id,
                                ..
                            } && schema_id == id
                        },
                        _ => r is Err,
                    }
                } else {
                    &&& r is Ok <==> avro_schema_parses(schema@)
                    &&& r matches Ok(t) ==> t is PlainAvro
                }
            },
            FormatSpec::Protobuf { message, confluent_wire_format, schema_message_id, .. } => {
                &&& r is Ok <==> ((*confluent_wire_format ==> (registry_result
                    matches Option::Some(Ok(_)))) && (descriptor_bytes matches Option::Some(
                    Ok(b),
                ) && descriptor_has_message(b@, message@)))
                &&& r matches Ok(t) ==> t matches Transcoder::Protobuf {
                    confluent_wire_format: cw,
                    schema_id,
                    schema_message_id: mid,
                    ..
                } && cw == *confluent_wire_format && mid == *schema_message_id && (
                !*confluent_wire_format ==> schema_id == 0) && (*confluent_wire_format ==> (
                registry_result matches Option::Some(Ok(id)) && schema_id == id))
            },
        },
{
    match f {
        FormatSpec::Bytes { terminator } => Ok(Transcoder::Bytes { terminator: *terminator }),
        FormatSpec::Avro { schema, confluent_wire_format } => {
            if *confluent_wire_format {
                let id = match registry_result {
                    Option::Some(Ok(id)) => id,
                    Option::Some(Err(m)) => {
                        return Err(schema_error(m));
                    },
                    Option::None => {
                        return Err(
                            schema_error(String::from_str("no registry answer for avro schema")),
                        );
                    },
                };
                match parse_avro_schema(schema.as_str()) {
                    Ok(s) => Ok(Transcoder::ConfluentAvro { schema: s, schema_id: id }),
                    Err(m) => Err(schema_error(m)),
                }
            } else {
                match parse_avro_schema(schema.as_str()) {
                    Ok(s) => Ok(Transcoder::PlainAvro { schema: s }),
                    Err(m) => Err(schema_error(m)),
                }
            }
        },
        FormatSpec::Protobuf { message, confluent_wire_format, schema_message_id, .. } => {
            let schema_id: i32 = if *confluent_wire_format {
                match registry_result {
                    Option::Some(Ok(id)) => id,
                    Option::Some(Err(m)) => {
                        return Err(schema_error(m));
                    },
                    Option::None => {
                        return Err(
                            schema_error(String::from_str("no registry answer for schema id")),
                        );
                    },
                }
            } else {
                0
            };
            let bytes = match descriptor_bytes {
                Option::Some(Ok(b)) => b,
                Option::Some(Err(m)) => {
                    return Err(schema_error(m));
                },
                Option::None => {
                    return Err(schema_error(String::from_str("no descriptor file contents")));
                },
            };
            match decode_and_find_message(bytes.as_slice(), message.as_str()) {
                Ok(md) => Ok(
                    Transcoder::Protobuf {
                        message: md,
                        confluent_wire_format: *confluent_wire_format,
                        schema_id,
                        schema_message_id: *schema_message_id,
                    },
                ),
                Err(m) => Err(schema_error(m)),
            }
        },
    }
}

/// The variable-environment export of one resolved slot: the resolved
/// schema ID under the requested variable name, where the codec carries an
/// ID and a name was requested.
pub fn schema_id_export(var: &Option<String>, t: &Transcoder) -> (r: Option<(String, i32)>)
    ensures
        match (var, t.spec_schema_id()) {
            (Option::Some(v), Option::Some(id)) => r matches Option::Some(p) && p.0@ == v@ && p.1
                == id,
            _ => r is None,
        },
{
    match (var, t.schema_id()) {
        (Option::Some(v), Option::Some(id)) => Option::Some((v.clone(), id)),
        _ => Option::None,
    }
}

} // verus!
