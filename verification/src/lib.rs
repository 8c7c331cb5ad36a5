//! A verified message transcoding and batched publication core.
//!
//! The library turns textual test-script input lines into binary broker
//! records: it validates the requested encodings, resolves them into ready
//! transcoders, consumes each input line as a shared cursor (a key codec
//! takes a prefix, the value codec the remainder), frames structured
//! payloads for a schema registry, builds record headers, and decides when
//! the bounded publish pipeline must drain.

pub mod avro;
pub mod cursor;
pub mod errors;
pub mod escape;
pub mod formats;
pub mod framing;
pub mod headers;
pub mod json;
pub mod pipeline;
pub mod protobuf;
pub mod publisher;
pub mod record;
pub mod resolver;
pub mod strings;
pub mod transcoder;
