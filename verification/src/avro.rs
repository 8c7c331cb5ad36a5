//! The Avro boundary.
//!
//! Schema parsing and datum encoding are the Avro library's work; the
//! library carries the parsed schema opaquely and frames the encoded datum
//! itself (see `framing`).

use vstd::prelude::*;

verus! {

#[verifier::external_type_specification]
#[verifier::external_body]
pub struct ExAvroSchema(apache_avro::Schema);

/// Whether a text parses as an Avro schema; a function of the characters
/// alone.
pub uninterp spec fn avro_schema_parses(s: Seq<char>) -> bool;

/// Relies on apache_avro::Schema::parse_str: parses Avro schema source
/// text, succeeding exactly on well-formed schema text.
#[verifier::external_body]
pub(crate) fn parse_avro_schema(text: &str) -> (r: Result<apache_avro::Schema, String>)
    ensures
        r is Ok <==> avro_schema_parses(text@),
{
    apache_avro::Schema::parse_str(text).map_err(|e| e.to_string())
}

/// Relies on apache_avro::types::Value::try_from for JSON values,
/// Value::resolve, and apache_avro::to_avro_datum: converts one JSON value
/// to the schema's binary Avro encoding, with no header or marker of its
/// own. Every schema handed in comes from Schema::parse_str, which resolves
/// named references or errors, so resolution's panic path on dangling
/// references is not reached.
#[verifier::external_body]
pub(crate) fn avro_encode(schema: &apache_avro::Schema, val: serde_json::Value) -> (r: Result<
    Vec<u8>,
    String,
>)
{
    let v = match apache_avro::types::Value::try_from(val) {
        Ok(v) => v,
        Err(e) => {
            return Err(e.to_string());
        },
    };
    let v = match v.resolve(schema) {
        Ok(v) => v,
        Err(e) => {
            return Err(e.to_string());
        },
    };
    apache_avro::to_avro_datum(schema, v).map_err(|e| e.to_string())
}

} // verus!
