//! The JSON boundary.
//!
//! Structured formats read one JSON value off the front of a line, and the
//! headers option arrives as JSON text. Parsing is serde_json's work; the
//! library carries parsed values opaquely and models the shapes its own
//! rules inspect (see `headers`).

use vstd::prelude::*;

use crate::errors::ErrorKind;
use crate::errors::IngestError;
use crate::headers::HeaderObj;
use crate::headers::HeaderVal;
use crate::headers::HeadersArrElem;
use crate::headers::HeadersJson;
use crate::headers::JsonNum;

verus! {

#[verifier::external_type_specification]
#[verifier::external_body]
pub struct ExJsonValue(serde_json::Value);

/// The outcome of reading one JSON value off the front of a byte sequence:
/// `None` when the leading bytes are malformed JSON, `Some(None)` when the
/// sequence is exhausted (empty or whitespace only), and `Some(Some(end))`
/// when one value ends at offset `end`. A function of the bytes alone.
pub uninterp spec fn json_prefix_end(b: Seq<u8>) -> Option<Option<int>>;

/// Relies on serde_json::Deserializer::into_iter and
/// StreamDeserializer::byte_offset: parses at most one JSON value from the
/// front of the buffer. The result is `json_prefix_end` of the bytes: the
/// reported end offset never passes the buffer's end, an exhausted (empty
/// or whitespace-only) buffer yields no value, and an error means the
/// leading value is malformed.
#[verifier::external_body]
pub(crate) fn take_json_value(buf: &[u8]) -> (r: Result<Option<(serde_json::Value, usize)>, String>)
    ensures
        match r {
            Ok(Option::Some((v, end))) => end <= buf@.len() && json_prefix_end(buf@)
                == Option::Some(Option::Some(end as int)),
            Ok(Option::None) => json_prefix_end(buf@) == Option::Some(Option::None::<int>),
            Err(_) => json_prefix_end(buf@) is None,
        },
        buf@.len() == 0 ==> r matches Ok(Option::None),
{
    let mut iter = serde_json::Deserializer::from_slice(buf).into_iter::<serde_json::Value>();
    match iter.next() {
        None => Ok(None),
        Some(Ok(v)) => {
            let end = iter.byte_offset();
            Ok(Some((v, end)))
        },
        Some(Err(e)) => Err(e.to_string()),
    }
}

/// Whether a text is one complete well-formed JSON document; a function of
/// the characters alone.
pub uninterp spec fn json_text_parses(s: Seq<char>) -> bool;

/// Relies on serde_json::from_str: parses one complete JSON document from
/// the text, succeeding exactly on well-formed JSON.
#[verifier::external_body]
pub(crate) fn parse_json_text(s: &str) -> (r: Result<serde_json::Value, String>)
    ensures
        r is Ok <==> json_text_parses(s@),
{
    serde_json::from_str::<serde_json::Value>(s).map_err(|e| e.to_string())
}

/// Relies on serde_json::Value's public variants: maps an arbitrary header
/// value to the shapes the header rules inspect, one variant per arm.
/// Called by the two object readers below as part of one boundary reading
/// of a JSON tree.
#[verifier::external_body]
pub(crate) fn classify_header_val(v: &serde_json::Value) -> (r: HeaderVal)
{
    match v {
        serde_json::Value::String(s) => HeaderVal::Str(s.clone()),
        serde_json::Value::Array(a) => HeaderVal::Arr(
            a.iter().map(|e| match e {
                serde_json::Value::Number(n) => n.as_i64().map_or(JsonNum::NotAnInt, JsonNum::Int),
                _ => JsonNum::NotANumber,
            }).collect(),
        ),
        serde_json::Value::Null => HeaderVal::Null,
        _ => HeaderVal::Other,
    }
}

/// Relies on serde_json::Value's public variants and serde_json::Map's
/// ordered iteration: maps one headers-array element, keeping the map's
/// natural key order.
#[verifier::external_body]
pub(crate) fn classify_headers_elem(v: &serde_json::Value) -> (r: HeadersArrElem)
{
    match v {
        serde_json::Value::Object(m) => HeadersArrElem::Obj(
            HeaderObj {
                entries: m.iter().map(|(k, w)| (k.clone(), classify_header_val(w))).collect(),
            },
        ),
        _ => HeadersArrElem::Other,
    }
}

/// Relies on serde_json::Value's public variants and serde_json::Map's
/// ordered iteration: maps the whole headers option to the shapes the
/// header rules inspect.
#[verifier::external_body]
pub(crate) fn classify_headers_json(v: &serde_json::Value) -> (r: HeadersJson)
{
    match v {
        serde_json::Value::Object(m) => HeadersJson::Obj(
            HeaderObj {
                entries: m.iter().map(|(k, w)| (k.clone(), classify_header_val(w))).collect(),
            },
        ),
        serde_json::Value::Array(a) => HeadersJson::Arr(
            a.iter().map(classify_headers_elem).collect(),
        ),
        _ => HeadersJson::Other,
    }
}

/// Parses the headers option's JSON text into the shapes the header rules
/// inspect: well-formed JSON always classifies, and text that is no JSON at
/// all is an argument error.
pub fn parse_headers_option(s: &str) -> (r: Result<HeadersJson, IngestError>)
    ensures
        r is Ok <==> json_text_parses(s@),
        r matches Err(e) ==> e.kind == ErrorKind::Argument,
{
    match parse_json_text(s) {
        Ok(v) => Ok(classify_headers_json(&v)),
        Err(m) => Err(IngestError::new(ErrorKind::Argument, m)),
    }
}

} // verus!
