use vstd::prelude::*;

verus! {

/// Default tolerance for timestamps ahead of the ingestion clock, in
/// milliseconds (five minutes). Timestamps are epoch milliseconds.
pub const DEFAULT_SKEW_TOLERANCE_MS: i64 = 300_000;

/// What an event carries.
#[derive(Debug, Clone, PartialEq, Eq)]
pub enum Payload {
    /// A structured payload: the JSON text of an object.
    Json(String),
    /// Opaque bytes, written as base64 where they travel inside JSON.
    Binary(Vec<u8>),
}

/// The content of a payload as a mathematical value.
pub ghost enum PayloadView {
    Json(Seq<char>),
    Binary(Seq<u8>),
}

impl View for Payload {
    type V = PayloadView;

    open spec fn view(&self) -> PayloadView {
        match self {
            Payload::Json(text) => PayloadView::Json(text@),
            Payload::Binary(bytes) => PayloadView::Binary(bytes@),
        }
    }
}

/// One telemetry record: who sent it, when it happened at the source, and
/// what it carries.
#[derive(Debug, Clone, PartialEq, Eq)]
pub struct Event {
    pub id: String,
    /// Epoch milliseconds at the source.
    pub timestamp: i64,
    pub payload: Payload,
}

impl Event {
    /// Builds an event from its fields, unchanged.
    pub fn new(id: String, timestamp: i64, payload: Payload) -> (r: Event)
        ensures
            r.id == id,
            r.timestamp == timestamp,
            r.payload == payload,
    {
        Event { id, timestamp, payload }
    }
}

} // verus!
