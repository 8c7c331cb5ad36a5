//! Requested encodings and their joint validation.
//!
//! A `FormatSpec` describes one slot's requested encoding (key or value) as
//! parsed from configuration. The two slots are validated jointly: if both
//! use a framing-capable format, their framing flags must agree.

use vstd::prelude::*;

use crate::errors::ErrorKind;
use crate::errors::IngestError;
use crate::headers::HeadersJson;
use crate::strings::str_eq;

verus! {

/// The default key terminator `:` for raw-bytes keys.
pub const DEFAULT_KEY_TERMINATOR: u8 = 0x3a;

/// One slot's requested encoding, as parsed from configuration.
#[derive(Debug)]
pub enum FormatSpec {
    /// Structured Avro: the schema source text and whether to frame the
    /// payload for the registry.
    Avro { schema: String, confluent_wire_format: bool },
    /// Structured Protobuf: where the descriptors live, which message to
    /// encode, framing, an optional registry-subject override, and the
    /// message index within the schema.
    Protobuf {
        descriptor_file: String,
        message: String,
        confluent_wire_format: bool,
        schema_id_subject: Option<String>,
        schema_message_id: u8,
    },
    /// Raw delimited bytes with an optional terminator.
    Bytes { terminator: Option<u8> },
}

/// The typed configuration of one ingestion run. Option lookups and
/// unknown-key rejection are the caller's plumbing; the rules on the values
/// live here.
pub struct IngestConfig {
    pub topic: String,
    pub partition: Option<i32>,
    pub start_iteration: i64,
    pub repeat: i64,
    pub omit_key: bool,
    pub omit_value: bool,
    pub schema_id_var: Option<String>,
    pub key_schema_id_var: Option<String>,
    pub format_name: String,
    pub schema: Option<String>,
    pub descriptor_file: Option<String>,
    pub message: Option<String>,
    pub schema_id_subject: Option<String>,
    pub schema_message_id: Option<u8>,
    pub confluent_wire_format: Option<bool>,
    pub key_format_name: Option<String>,
    pub key_schema: Option<String>,
    pub key_descriptor_file: Option<String>,
    pub key_message: Option<String>,
    pub key_schema_id_subject: Option<String>,
    pub key_schema_message_id: Option<u8>,
    pub key_terminator: Option<char>,
    pub timestamp: Option<i64>,
    pub headers: Option<HeadersJson>,
}

/// The value-slot format a configuration asks for; `None` when the
/// configuration is invalid (an argument error).
pub open spec fn spec_value_format(cfg: &IngestConfig) -> Option<FormatSpec> {
    if cfg.format_name@ == "avro"@ {
        match cfg.schema {
            Option::Some(s) => Option::Some(
                FormatSpec::Avro {
                    schema: s,
                    confluent_wire_format: spec_bool_or(cfg.confluent_wire_format, true),
                },
            ),
            Option::None => Option::None,
        }
    } else if cfg.format_name@ == "protobuf"@ {
        match (cfg.descriptor_file, cfg.message) {
            (Option::Some(d), Option::Some(m)) => Option::Some(
                FormatSpec::Protobuf {
                    descriptor_file: d,
                    message: m,
                    confluent_wire_format: spec_bool_or(cfg.confluent_wire_format, false),
                    schema_id_subject: cfg.schema_id_subject,
                    schema_message_id: spec_u8_or(cfg.schema_message_id, 0),
                },
            ),
            _ => Option::None,
        }
    } else if cfg.format_name@ == "bytes"@ {
        Option::Some(FormatSpec::Bytes { terminator: Option::None })
    } else {
        Option::None
    }
}

/// The key terminator a configuration asks for; `None` when the configured
/// character is not a single ASCII byte.
pub open spec fn spec_key_terminator(kt: Option<char>) -> Option<u8> {
    match kt {
        Option::Some(c) => if c as u32 <= 127 {
            Option::Some((c as u32) as u8)
        } else {
            Option::None
        },
        Option::None => Option::Some(DEFAULT_KEY_TERMINATOR),
    }
}

/// The key-slot format a configuration asks for: `Some(None)` when no key
/// format is configured, `None` when the configuration is invalid.
pub open spec fn spec_key_format(cfg: &IngestConfig) -> Option<Option<FormatSpec>> {
    let leftover_key_schema = cfg.key_schema is Some;
    match cfg.key_format_name {
        Option::None => if leftover_key_schema {
            Option::None
        } else {
            Option::Some(Option::None)
        },
        Option::Some(name) => if name@ == "avro"@ {
            match cfg.key_schema {
                Option::Some(s) => Option::Some(
                    Option::Some(
                        FormatSpec::Avro {
                            schema: s,
                            confluent_wire_format: spec_bool_or(cfg.confluent_wire_format, true),
                        },
                    ),
                ),
                Option::None => Option::None,
            }
        } else if name@ == "protobuf"@ {
            if leftover_key_schema {
                Option::None
            } else {
                match (cfg.key_descriptor_file, cfg.key_message) {
                    (Option::Some(d), Option::Some(m)) => Option::Some(
                        Option::Some(
                            FormatSpec::Protobuf {
                                descriptor_file: d,
                                message: m,
                                confluent_wire_format: spec_bool_or(
                                    cfg.confluent_wire_format,
                                    false,
                                ),
                                schema_id_subject: cfg.key_schema_id_subject,
                                schema_message_id: spec_u8_or(cfg.key_schema_message_id, 0),
                            },
                        ),
                    ),
                    _ => Option::None,
                }
            }
        } else if name@ == "bytes"@ {
            if leftover_key_schema {
                Option::None
            } else {
                match spec_key_terminator(cfg.key_terminator) {
                    Option::Some(t) => Option::Some(
                        Option::Some(FormatSpec::Bytes { terminator: Option::Some(t) }),
                    ),
                    Option::None => Option::None,
                }
            }
        } else {
            Option::None
        },
    }
}

/// Whether a format frames its payload for the registry; raw bytes has no
/// framing concept.
pub open spec fn spec_is_confluent(f: &FormatSpec) -> Option<bool> {
    match f {
        FormatSpec::Avro { confluent_wire_format, .. } => Option::Some(*confluent_wire_format),
        FormatSpec::Protobuf { confluent_wire_format, .. } => Option::Some(
            *confluent_wire_format,
        ),
        FormatSpec::Bytes { .. } => Option::None,
    }
}

/// Key and value framing flags agree wherever both formats have one.
pub open spec fn spec_framing_consistent(key: &Option<FormatSpec>, value: &FormatSpec) -> bool {
    match key {
        Option::Some(k) => match (spec_is_confluent(k), spec_is_confluent(value)) {
            (Option::Some(a), Option::Some(b)) => a == b,
            _ => true,
        },
        Option::None => true,
    }
}

/// The value and key formats a configuration asks for, or `None` when any
/// of the configuration rules rejects it.
pub open spec fn spec_build_formats(cfg: &IngestConfig) -> Option<(FormatSpec, Option<
    FormatSpec,
>)> {
    match spec_value_format(cfg) {
        Option::None => Option::None,
        Option::Some(v) => match spec_key_format(cfg) {
            Option::None => Option::None,
            Option::Some(k) => if spec_framing_consistent(&k, &v) {
                Option::Some((v, k))
            } else {
                Option::None
            },
        },
    }
}

/// `b`, or the default when absent.
pub open spec fn spec_bool_or(b: Option<bool>, default: bool) -> bool {
    match b {
        Option::Some(v) => v,
        Option::None => default,
    }
}

/// `v`, or the default when absent.
pub open spec fn spec_u8_or(v: Option<u8>, default: u8) -> u8 {
    match v {
        Option::Some(x) => x,
        Option::None => default,
    }
}

fn bool_or(b: &Option<bool>, default: bool) -> (r: bool)
    ensures
        r == spec_bool_or(*b, default),
{
    match b {
        Option::Some(v) => *v,
        Option::None => default,
    }
}

fn u8_or(v: &Option<u8>, default: u8) -> (r: u8)
    ensures
        r == spec_u8_or(*v, default),
{
    match v {
        Option::Some(x) => *x,
        Option::None => default,
    }
}

pub(crate) fn clone_opt_string(v: &Option<String>) -> (r: Option<String>)
    ensures
        r == *v,
{
    match v {
        Option::Some(s) => Option::Some(s.clone()),
        Option::None => Option::None,
    }
}

fn argument_error(msg: &str) -> (r: IngestError)
    ensures
        r.kind == ErrorKind::Argument,
{
    IngestError::new(ErrorKind::Argument, msg.to_owned())
}

/// Builds the value-slot format from configuration; an unknown format name
/// or a missing required option is an argument error.
pub fn value_format(cfg: &IngestConfig) -> (r: Result<FormatSpec, IngestError>)
    ensures
        match spec_value_format(cfg) {
            Option::Some(f) => r matches Ok(v) && v == f,
            Option::None => r matches Err(e) && e.kind == ErrorKind::Argument,
        },
{
    if str_eq(cfg.format_name.as_str(), "avro") {
        match &cfg.schema {
            Option::Some(s) => Ok(
                FormatSpec::Avro {
                    schema: s.clone(),
                    confluent_wire_format: bool_or(&cfg.confluent_wire_format, true),
                },
            ),
            Option::None => Err(argument_error("schema parameter required for avro format")),
        }
    } else if str_eq(cfg.format_name.as_str(), "protobuf") {
        match (&cfg.descriptor_file, &cfg.message) {
            (Option::Some(d), Option::Some(m)) => Ok(
                FormatSpec::Protobuf {
                    descriptor_file: d.clone(),
                    message: m.clone(),
                    confluent_wire_format: bool_or(&cfg.confluent_wire_format, false),
                    schema_id_subject: clone_opt_string(&cfg.schema_id_subject),
                    schema_message_id: u8_or(&cfg.schema_message_id, 0),
                },
            ),
            _ => Err(
                argument_error("descriptor-file and message parameters required for protobuf"),
            ),
        }
    } else if str_eq(cfg.format_name.as_str(), "bytes") {
        Ok(FormatSpec::Bytes { terminator: Option::None })
    } else {
        Err(argument_error("unknown format"))
    }
}

/// Builds the key-slot format from configuration. A key schema with no key
/// format to consume it, a non-ASCII key terminator, missing required
/// options, or an unknown key format name are argument errors.
pub fn key_format(cfg: &IngestConfig) -> (r: Result<Option<FormatSpec>, IngestError>)
    ensures
        match spec_key_format(cfg) {
            Option::Some(f) => r matches Ok(v) && v == f,
            Option::None => r matches Err(e) && e.kind == ErrorKind::Argument,
        },
{
    let leftover_key_schema = cfg.key_schema.is_some();
    match &cfg.key_format_name {
        Option::None => {
            if leftover_key_schema {
                Err(argument_error("key-schema specified without a matching key-format"))
            } else {
                Ok(Option::None)
            }
        },
        Option::Some(name) => {
            if str_eq(name.as_str(), "avro") {
                match &cfg.key_schema {
                    Option::Some(s) => Ok(
                        Option::Some(
                            FormatSpec::Avro {
                                schema: s.clone(),
                                confluent_wire_format: bool_or(&cfg.confluent_wire_format, true),
                            },
                        ),
                    ),
                    Option::None => Err(
                        argument_error("key-schema parameter required when key-format is present"),
                    ),
                }
            } else if str_eq(name.as_str(), "protobuf") {
                if leftover_key_schema {
                    Err(argument_error("key-schema specified without a matching key-format"))
                } else {
                    match (&cfg.key_descriptor_file, &cfg.key_message) {
                        (Option::Some(d), Option::Some(m)) => Ok(
                            Option::Some(
                                FormatSpec::Protobuf {
                                    descriptor_file: d.clone(),
                                    message: m.clone(),
                                    confluent_wire_format: bool_or(
                                        &cfg.confluent_wire_format,
                                        false,
                                    ),
                                    schema_id_subject: clone_opt_string(
                                        &cfg.key_schema_id_subject,
                                    ),
                                    schema_message_id: u8_or(&cfg.key_schema_message_id, 0),
                                },
                            ),
                        ),
                        _ => Err(
                            argument_error(
                                "key-descriptor-file and key-message parameters required",
                            ),
                        ),
                    }
                }
            } else if str_eq(name.as_str(), "bytes") {
                if leftover_key_schema {
                    Err(argument_error("key-schema specified without a matching key-format"))
                } else {
                    match &cfg.key_terminator {
                        Option::Some(c) => {
                            let cu = *c as u32;
                            if cu <= 127 {
                                Ok(
                                    Option::Some(
                                        FormatSpec::Bytes { terminator: Option::Some(cu as u8) },
                                    ),
                                )
                            } else {
                                Err(
                                    argument_error(
                                        "key terminator must be a single ASCII character",
                                    ),
                                )
                            }
                        },
                        Option::None => Ok(
                            Option::Some(
                                FormatSpec::Bytes {
                                    terminator: Option::Some(DEFAULT_KEY_TERMINATOR),
                                },
                            ),
                        ),
                    }
                }
            } else {
                Err(argument_error("unknown key format"))
            }
        },
    }
}

/// Whether a format frames its payload for the registry.
pub fn is_confluent(f: &FormatSpec) -> (r: Option<bool>)
    ensures
        r == spec_is_confluent(f),
{
    match f {
        FormatSpec::Avro { confluent_wire_format, .. } => Option::Some(*confluent_wire_format),
        FormatSpec::Protobuf { confluent_wire_format, .. } => Option::Some(
            *confluent_wire_format,
        ),
        FormatSpec::Bytes { .. } => Option::None,
    }
}

/// Builds both slots' formats and validates them jointly: a framed key with
/// an unframed value, or the reverse, is an argument error.
pub fn build_formats(cfg: &IngestConfig) -> (r: Result<(FormatSpec, Option<FormatSpec>), IngestError>)
    ensures
        match spec_build_formats(cfg) {
            Option::Some(fs) => r matches Ok(v) && v == fs,
            Option::None => r matches Err(e) && e.kind == ErrorKind::Argument,
        },
{
    let v = match value_format(cfg) {
        Ok(v) => v,
        Err(e) => {
            return Err(e);
        },
    };
    let k = match key_format(cfg) {
        Ok(k) => k,
        Err(e) => {
            return Err(e);
        },
    };
    let consistent = match &k {
        Option::Some(kf) => match (is_confluent(kf), is_confluent(&v)) {
            (Option::Some(a), Option::Some(b)) => a == b,
            _ => true,
        },
        Option::None => true,
    };
    if consistent {
        Ok((v, k))
    } else {
        Err(
            argument_error(
                "the key and the value must both be in confluent format, or neither",
            ),
        )
    }
}

/// A key schema configured without a key format is always rejected as an
/// argument error, whatever the rest of the configuration says.
pub proof fn lemma_key_schema_requires_key_format(cfg: &IngestConfig)
    requires
        cfg.key_schema is Some,
        cfg.key_format_name is None,
    ensures
        spec_build_formats(cfg) is None,
{
}

/// A framed key beside an unframed value, or the reverse, is always
/// rejected as an argument error.
pub proof fn lemma_framing_mismatch_rejected(cfg: &IngestConfig, v: FormatSpec, k: FormatSpec)
    requires
        spec_value_format(cfg) == Option::Some(v),
        spec_key_format(cfg) == Option::Some(Option::Some(k)),
        spec_is_confluent(&v) is Some,
        spec_is_confluent(&k) is Some,
        spec_is_confluent(&v) != spec_is_confluent(&k),
    ensures
        spec_build_formats(cfg) is None,
{
}

} // verus!
