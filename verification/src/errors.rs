//! Error taxonomy of the ingestion core.
//!
//! Every failure is fatal to one ingestion run; the kind records which stage
//! rejected the input.

use vstd::prelude::*;

verus! {

/// Which stage of the ingestion run rejected the input.
#[derive(Clone, Copy, Debug, PartialEq, Eq, Structural)]
pub enum ErrorKind {
    /// Invalid or contradictory configuration, detected before any
    /// resolution or encoding work.
    Argument,
    /// Registry registration or lookup failure, descriptor parse failure,
    /// or an unknown message name.
    Schema,
    /// Malformed JSON, a schema-encoding failure, or a malformed
    /// byte-escape sequence in a raw-bytes field.
    Encoding,
    /// A broker send failure or timeout.
    Publish,
}

/// A fatal ingestion error: its kind and a human-readable message.
#[derive(Debug)]
pub struct IngestError {
    pub kind: ErrorKind,
    pub message: String,
}

impl IngestError {
    /// Builds an error of the given kind carrying the given message.
    pub fn new(kind: ErrorKind, message: String) -> (r: IngestError)
        ensures
            r.kind == kind,
            r.message@ == message@,
    {
        IngestError { kind, message }
    }

    /// The kind of this error.
    pub fn kind(&self) -> (r: ErrorKind)
        ensures
            r == self.kind,
    {
        self.kind
    }

    /// The human-readable message of this error.
    pub fn message(&self) -> (r: &str)
        ensures
            r@ == self.message@,
    {
        self.message.as_str()
    }
}

} // verus!
