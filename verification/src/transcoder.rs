//! Resolved codecs and per-line transcoding.
//!
//! A `Transcoder` is a ready-to-use codec bound to concrete schema objects
//! and IDs. It consumes bytes from the front of a line's cursor and yields
//! either one encoded field, no field at all (an absent key or value,
//! distinct from an empty one), or an encoding error.

use vstd::prelude::*;

use crate::cursor::ByteCursor;
use crate::cursor::lemma_split_of_joined;
use crate::cursor::rest_after_terminator;
use crate::cursor::taken_before_terminator;
use crate::errors::ErrorKind;
use crate::errors::IngestError;
use crate::escape::escapable_terminator;
use crate::escape::escape_spec;
use crate::escape::lemma_escape_avoids_protected;
use crate::escape::lemma_unescape_escape;
use crate::escape::unescape;
use crate::escape::unescape_spec;
use crate::framing::frame_payload;
use crate::framing::framed;
use crate::json::json_prefix_end;
use crate::json::take_json_value;

verus! {

/// A resolved codec for one slot (key or value).
#[derive(Debug)]
pub enum Transcoder {
    /// Avro without registry framing: the bare binary datum.
    PlainAvro { schema: apache_avro::Schema },
    /// Avro with registry framing under a resolved schema ID.
    ConfluentAvro { schema: apache_avro::Schema, schema_id: i32 },
    /// Protobuf, framed or not, with a resolved schema ID and the message
    /// index within the schema.
    Protobuf {
        message: prost_reflect::MessageDescriptor,
        confluent_wire_format: bool,
        schema_id: i32,
        schema_message_id: u8,
    },
    /// Raw delimited bytes with an optional terminator.
    Bytes { terminator: Option<u8> },
}

/// What a raw-bytes read takes from the remainder of a line: everything,
/// or the bytes before the first terminator.
pub open spec fn spec_raw_taken(rem: Seq<u8>, term: Option<u8>) -> Seq<u8> {
    match term {
        Option::Some(t) => taken_before_terminator(rem, t),
        Option::None => rem,
    }
}

/// What such a read leaves for the next codec.
pub open spec fn spec_raw_rest(rem: Seq<u8>, term: Option<u8>) -> Seq<u8> {
    match term {
        Option::Some(t) => rest_after_terminator(rem, t),
        Option::None => Seq::empty(),
    }
}

/// The result a raw-bytes transcode owes: no field when nothing was taken,
/// the unescaped bytes when they decode, and an encoding error otherwise
/// (`None`).
pub open spec fn spec_raw_result(rem: Seq<u8>, term: Option<u8>) -> Option<Option<Seq<u8>>> {
    let taken = spec_raw_taken(rem, term);
    if taken.len() == 0 {
        Option::Some(Option::None)
    } else {
        match unescape_spec(taken) {
            Option::Some(u) => Option::Some(Option::Some(u)),
            Option::None => Option::None,
        }
    }
}

/// Raw-bytes round trip: a line assembled as the escaped key, the
/// terminator, then the escaped value splits and decodes back to exactly
/// the original key and value bytes — the terminator stripped and the
/// escapes applied. An empty side comes back as an absent field. Holds for
/// every terminator the escape alphabet cannot spell (the default `:`
/// qualifies).
pub proof fn lemma_raw_bytes_round_trip(key: Seq<u8>, value: Seq<u8>, t: u8)
    requires
        escapable_terminator(t),
    ensures
        ({
            let line = escape_spec(key, t) + seq![t] + escape_spec(value, t);
            &&& spec_raw_rest(line, Option::Some(t)) == escape_spec(value, t)
            &&& spec_raw_result(line, Option::Some(t)) == Option::Some(
                if key.len() == 0 {
                    Option::None
                } else {
                    Option::Some(key)
                },
            )
            &&& spec_raw_result(escape_spec(value, t), Option::None) == Option::Some(
                if value.len() == 0 {
                    Option::None
                } else {
                    Option::Some(value)
                },
            )
        }),
{
    lemma_escape_avoids_protected(key, t);
    lemma_escape_avoids_protected(value, t);
    lemma_split_of_joined(escape_spec(key, t), escape_spec(value, t), t);
    lemma_unescape_escape(key, t);
    lemma_unescape_escape(value, t);
    lemma_escape_len(key, t);
    lemma_escape_len(value, t);
}

/// Escaping keeps emptiness: the escaped form is empty exactly when the
/// input is.
proof fn lemma_escape_len(s: Seq<u8>, t: u8)
    ensures
        (escape_spec(s, t).len() == 0) == (s.len() == 0),
{
    if s.len() == 0 {
    } else {
        assert(escape_spec(s, t).len() > 0);
    }
}

impl Transcoder {
    /// The schema ID this codec resolved, where it carries one.
    pub open spec fn spec_schema_id(&self) -> Option<i32> {
        match self {
            Transcoder::ConfluentAvro { schema_id, .. } => Option::Some(*schema_id),
            Transcoder::Protobuf { schema_id, .. } => Option::Some(*schema_id),
            _ => Option::None,
        }
    }

    /// The schema ID this codec exposes to the caller's variable
    /// environment, where it carries one.
    pub fn schema_id(&self) -> (r: Option<i32>)
        ensures
            r == self.spec_schema_id(),
    {
        match self {
            Transcoder::ConfluentAvro { schema_id, .. } => Option::Some(*schema_id),
            Transcoder::Protobuf { schema_id, .. } => Option::Some(*schema_id),
            _ => Option::None,
        }
    }

    /// Consumes one field's worth of bytes from the cursor and encodes it.
    ///
    /// Raw bytes consume up to the terminator (or everything) and unescape;
    /// structured codecs parse one JSON value off the front — none at all
    /// yields an absent field — and encode it, framed for the registry
    /// where the codec says so: magic byte, big-endian schema ID, and for
    /// Protobuf the message index.
    pub fn transcode(&self, row: &mut ByteCursor) -> (r: Result<Option<Vec<u8>>, IngestError>)
        requires
            old(row).wf(),
        ensures
            final(row).wf(),
            final(row).line() == old(row).line(),
            self matches Transcoder::Bytes { terminator } ==> {
                &&& final(row).remaining() == spec_raw_rest(old(row).remaining(), *terminator)
                &&& match r {
                    Ok(Option::Some(v)) => spec_raw_result(old(row).remaining(), *terminator)
                        == Option::Some(Option::Some(v@)),
                    Ok(Option::None) => spec_raw_result(old(row).remaining(), *terminator)
                        == Option::Some(Option::None::<Seq<u8>>),
                    Err(e) => spec_raw_result(old(row).remaining(), *terminator) is None && e.kind
                        == ErrorKind::Encoding,
                }
            },
            !(self matches Transcoder::Bytes { .. }) ==> {
                &&& exists|k: int|
                    0 <= k <= old(row).remaining().len() && final(row).remaining() == old(
                        row,
                    ).remaining().skip(k)
                &&& old(row).remaining().len() == 0 ==> (r matches Ok(Option::None))
                &&& match r {
                    Ok(Option::None) => json_prefix_end(old(row).remaining()) == Option::Some(
                        Option::None::<int>,
                    ),
                    Ok(Option::Some(_)) => (json_prefix_end(old(row).remaining())
                        matches Option::Some(Option::Some(end)) && final(row).remaining() == old(
                        row,
                    ).remaining().skip(end)),
                    Err(_) => true,
                }
                &&& json_prefix_end(old(row).remaining()) == Option::Some(Option::None::<int>)
                    ==> (r matches Ok(Option::None))
                &&& json_prefix_end(old(row).remaining()) is None ==> r is Err
            },
            match r {
                Ok(Option::Some(v)) => {
                    &&& self matches Transcoder::ConfluentAvro { schema_id, .. } ==> exists|
                        payload: Seq<u8>,
                    | v@ == framed(*schema_id, Option::None, payload)
                    &&& self matches Transcoder::Protobuf {
                        confluent_wire_format,
                        schema_id,
                        schema_message_id,
                        ..
                    } ==> *confluent_wire_format ==> exists|payload: Seq<u8>|
                        v@ == framed(*schema_id, Option::Some(*schema_message_id), payload)
                },
                Ok(Option::None) => true,
                Err(e) => e.kind == ErrorKind::Encoding,
            },
    {
        match self {
            Transcoder::ConfluentAvro { schema, schema_id } => {
                match next_json(row) {
                    Ok(Option::Some(val)) => match crate::avro::avro_encode(schema, val) {
                        Ok(payload) => {
                            let ghost p = payload@;
                            let out = frame_payload(*schema_id, Option::None, payload);
                            proof {
                                assert(out@ == framed(*schema_id, Option::None, p));
                            }
                            Ok(Option::Some(out))
                        },
                        Err(m) => Err(IngestError::new(ErrorKind::Encoding, m)),
                    },
                    Ok(Option::None) => Ok(Option::None),
                    Err(e) => Err(e),
                }
            },
            Transcoder::PlainAvro { schema } => {
                match next_json(row) {
                    Ok(Option::Some(val)) => match crate::avro::avro_encode(schema, val) {
                        Ok(payload) => Ok(Option::Some(payload)),
                        Err(m) => Err(IngestError::new(ErrorKind::Encoding, m)),
                    },
                    Ok(Option::None) => Ok(Option::None),
                    Err(e) => Err(e),
                }
            },
            Transcoder::Protobuf {
                message,
                confluent_wire_format,
                schema_id,
                schema_message_id,
            } => {
                match next_json(row) {
                    Ok(Option::Some(val)) => match crate::protobuf::protobuf_encode(
                        message,
                        val,
                    ) {
                        Ok(payload) => {
                            if *confluent_wire_format {
                                let ghost p = payload@;
                                let out = frame_payload(
                                    *schema_id,
                                    Option::Some(*schema_message_id),
                                    payload,
                                );
                                proof {
                                    assert(out@ == framed(
                                        *schema_id,
                                        Option::Some(*schema_message_id),
                                        p,
                                    ));
                                }
                                Ok(Option::Some(out))
                            } else {
                                Ok(Option::Some(payload))
                            }
                        },
                        Err(m) => Err(IngestError::new(ErrorKind::Encoding, m)),
                    },
                    Ok(Option::None) => Ok(Option::None),
                    Err(e) => Err(e),
                }
            },
            Transcoder::Bytes { terminator } => {
                let taken = match terminator {
                    Option::Some(t) => row.take_until(*t),
                    Option::None => row.take_rest(),
                };
                if taken.len() == 0 {
                    Ok(Option::None)
                } else {
                    match unescape(taken.as_slice()) {
                        Ok(u) => Ok(Option::Some(u)),
                        Err(e) => Err(e),
                    }
                }
            },
        }
    }
}

/// Parses one JSON value off the front of the cursor and consumes exactly
/// its bytes; an exhausted cursor yields no value, and malformed leading
/// bytes are an encoding error.
fn next_json(row: &mut ByteCursor) -> (r: Result<Option<serde_json::Value>, IngestError>)
    requires
        old(row).wf(),
    ensures
        final(row).wf(),
        final(row).line() == old(row).line(),
        exists|k: int|
            0 <= k <= old(row).remaining().len() && final(row).remaining() == old(
                row,
            ).remaining().skip(k),
        match r {
            Ok(Option::Some(_)) => json_prefix_end(old(row).remaining()) matches Option::Some(
                Option::Some(end),
            ) && final(row).remaining() == old(row).remaining().skip(end),
            Ok(Option::None) => json_prefix_end(old(row).remaining()) == Option::Some(
                Option::None::<int>,
            ) && final(row).remaining() == old(row).remaining(),
            Err(e) => json_prefix_end(old(row).remaining()) is None && e.kind
                == ErrorKind::Encoding && final(row).remaining() == old(row).remaining(),
        },
        old(row).remaining().len() == 0 ==> r matches Ok(Option::None),
{
    let parsed = take_json_value(row.peek_rest());
    match parsed {
        Ok(Option::Some((val, end))) => {
            row.advance(end);
            Ok(Option::Some(val))
        },
        Ok(Option::None) => {
            proof {
                assert(row.remaining() == old(row).remaining().skip(0)) by {
                    assert(old(row).remaining().skip(0) =~= old(row).remaining());
                }
            }
            Ok(Option::None)
        },
        Err(m) => {
            proof {
                assert(row.remaining() == old(row).remaining().skip(0)) by {
                    assert(old(row).remaining().skip(0) =~= old(row).remaining());
                }
            }
            Err(IngestError::new(ErrorKind::Encoding, m))
        },
    }
}

} // verus!
