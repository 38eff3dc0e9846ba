use vstd::prelude::*;

verus! {

/// Why a candidate event was refused by validation.
#[derive(Debug, Clone, PartialEq, Eq)]
pub enum EventError {
    /// The event has an empty identifier.
    MissingId,
    /// The event timestamp lies beyond the allowed skew into the future.
    TimestampInFuture,
    /// The payload did not parse; the text says why.
    PayloadParse(String),
}

/// Why a base64 text could not be turned back into bytes.
#[derive(Debug, Clone, Copy, PartialEq, Eq, Structural)]
pub enum CodecError {
    /// A character outside the alphabet, or padding that is not canonical.
    Malformed,
}

impl EventError {
    /// The error kind as a short stable label, usable as a counter key.
    pub fn kind(&self) -> (r: &'static str)
        ensures
            *self is MissingId ==> r@ == "missing_id"@,
            *self is TimestampInFuture ==> r@ == "timestamp_in_future"@,
            *self is PayloadParse ==> r@ == "payload_parse"@,
    {
        match self {
            EventError::MissingId => "missing_id",
            EventError::TimestampInFuture => "timestamp_in_future",
            EventError::PayloadParse(_) => "payload_parse",
        }
    }
}

} // verus!
