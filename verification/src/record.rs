//! Per-line record assembly.
//!
//! A `RowCodec` drives one line through the key and value codecs: the key
//! consumes a prefix of the line's cursor, the value the remainder. The
//! result, together with the run-wide topic, partition, timestamp and
//! headers, forms one outgoing record.

use vstd::prelude::*;

use crate::cursor::ByteCursor;
use crate::errors::ErrorKind;
use crate::errors::IngestError;
use crate::framing::framed;
use crate::headers::HeaderEntry;
use crate::headers::entries_model;
use crate::transcoder::Transcoder;
use crate::transcoder::spec_raw_rest;
use crate::transcoder::spec_raw_result;

verus! {

/// The key and value codecs of one run, with the suppression flags.
pub struct RowCodec {
    pub key: Option<Transcoder>,
    pub value: Transcoder,
    pub omit_key: bool,
    pub omit_value: bool,
}

/// The optional bytes of an optional field, for contracts.
pub open spec fn opt_bytes_model(v: Option<Vec<u8>>) -> Option<Seq<u8>> {
    match v {
        Option::Some(b) => Option::Some(b@),
        Option::None => Option::None,
    }
}

/// Whether a codec is the raw-bytes variant.
pub open spec fn spec_is_raw(t: &Transcoder) -> bool {
    t matches Transcoder::Bytes { .. }
}

/// A raw-bytes codec's terminator; meaningful only for that variant.
pub open spec fn spec_raw_term(t: &Transcoder) -> Option<u8> {
    match t {
        Transcoder::Bytes { terminator } => *terminator,
        _ => Option::None,
    }
}

impl RowCodec {
    /// Whether the key codec runs at all.
    pub open spec fn key_active(&self) -> bool {
        !self.omit_key && self.key is Some
    }

    /// Consumes one input line: the key codec takes a prefix (unless
    /// suppressed or unconfigured), then the value codec takes the
    /// remainder (unless suppressed, in which case it is discarded unread).
    pub fn encode_row(&self, line: Vec<u8>) -> (r: Result<
        (Option<Vec<u8>>, Option<Vec<u8>>),
        IngestError,
    >)
        ensures
            r matches Err(e) ==> e.kind == ErrorKind::Encoding,
            ({
                let key_raw_or_off = !self.key_active() || spec_is_raw(&self.key.unwrap());
                let key_ok = !self.key_active() || spec_raw_result(
                    line@,
                    spec_raw_term(&self.key.unwrap()),
                ) is Some;
                let rem = if self.key_active() {
                    spec_raw_rest(line@, spec_raw_term(&self.key.unwrap()))
                } else {
                    line@
                };
                let value_raw_or_off = self.omit_value || spec_is_raw(&self.value);
                let value_ok = self.omit_value || spec_raw_result(
                    rem,
                    spec_raw_term(&self.value),
                ) is Some;
                (key_raw_or_off && key_ok && value_raw_or_off && value_ok) ==> r is Ok
            }),
            r matches Ok(kv) ==> {
                &&& !self.key_active() ==> kv.0 is None
                &&& self.omit_value ==> kv.1 is None
                &&& self.key_active() ==> (self.key.unwrap() matches Transcoder::Bytes {
                    terminator,
                } ==> spec_raw_result(line@, terminator) == Option::Some(opt_bytes_model(kv.0)))
                &&& (!self.omit_value && !self.key_active()) ==> (self.value
                    matches Transcoder::Bytes { terminator } ==> spec_raw_result(
                    line@,
                    terminator,
                ) == Option::Some(opt_bytes_model(kv.1)))
                &&& (!self.omit_value && self.key_active()) ==> (self.key.unwrap()
                    matches Transcoder::Bytes { terminator: kt } ==> (self.value
                    matches Transcoder::Bytes { terminator: vt } ==> spec_raw_result(
                    spec_raw_rest(line@, kt),
                    vt,
                ) == Option::Some(opt_bytes_model(kv.1))))
                &&& self.value matches Transcoder::ConfluentAvro { schema_id, .. } ==> (kv.1
                    matches Option::Some(v) ==> exists|payload: Seq<u8>|
                    v@ == framed(schema_id, Option::None, payload))
                &&& self.value matches Transcoder::Protobuf {
                    confluent_wire_format,
                    schema_id,
                    schema_message_id,
                    ..
                } ==> (confluent_wire_format ==> (kv.1 matches Option::Some(v) ==> exists|
                    payload: Seq<u8>,
                |
                    v@ == framed(schema_id, Option::Some(schema_message_id), payload)))
                &&& self.key_active() ==> (self.key.unwrap()
                    matches Transcoder::ConfluentAvro { schema_id, .. } ==> (kv.0
                    matches Option::Some(k) ==> exists|payload: Seq<u8>|
                    k@ == framed(schema_id, Option::None, payload)))
            },
    {
        let mut row = ByteCursor::new(line);
        let key = if self.omit_key {
            Option::None
        } else {
            match &self.key {
                Option::None => Option::None,
                Option::Some(kt) => {
                    match kt.transcode(&mut row) {
                        Ok(k) => k,
                        Err(e) => {
                            return Err(e);
                        },
                    }
                },
            }
        };
        let value = if self.omit_value {
            Option::None
        } else {
            match self.value.transcode(&mut row) {
                Ok(v) => v,
                Err(e) => {
                    return Err(e);
                },
            }
        };
        Ok((key, value))
    }
}

/// One record bound for the broker: topic, optional partition, optional
/// key and value, optional timestamp, and ordered headers.
pub struct OutgoingRecord {
    pub topic: String,
    pub partition: Option<i32>,
    pub key: Option<Vec<u8>>,
    pub value: Option<Vec<u8>>,
    pub timestamp: Option<i64>,
    pub headers: Vec<HeaderEntry>,
}

/// Copies a header list entry by entry.
pub fn duplicate_headers(hs: &Vec<HeaderEntry>) -> (r: Vec<HeaderEntry>)
    ensures
        entries_model(r@) == entries_model(hs@),
{
    let mut out: Vec<HeaderEntry> = Vec::new();
    let mut i: usize = 0;
    while i < hs.len()
        invariant
            i <= hs@.len(),
            entries_model(out@) == entries_model(hs@.take(i as int)),
        decreases hs@.len() - i,
    {
        let e = hs[i].duplicate();
        out.push(e);
        proof {
            assert(entries_model(out@) =~= entries_model(hs@.take(i as int)).push(e.model()));
            assert(entries_model(hs@.take(i + 1)) =~= entries_model(hs@.take(i as int)).push(
                hs@[i as int].model(),
            ));
        }
        i = i + 1;
    }
    proof {
        assert(hs@.take(hs@.len() as int) =~= hs@);
    }
    out
}

/// Assembles one outgoing record from a row's encoded fields and the
/// run-wide settings; every record of a run carries the same topic,
/// partition, timestamp and headers.
pub fn build_record(
    topic: &str,
    partition: Option<i32>,
    key: Option<Vec<u8>>,
    value: Option<Vec<u8>>,
    timestamp: Option<i64>,
    headers: &Vec<HeaderEntry>,
) -> (r: OutgoingRecord)
    ensures
        r.topic@ == topic@,
        r.partition == partition,
        r.key == key,
        r.value == value,
        r.timestamp == timestamp,
        entries_model(r.headers@) == entries_model(headers@),
{
    OutgoingRecord {
        topic: topic.to_owned(),
        partition,
        key,
        value,
        timestamp,
        headers: duplicate_headers(headers),
    }
}

} // verus!
