//! Core of a telemetry event intake: the event model, a base64 codec for
//! binary payloads, a stateless validator and a bounded, draining ingestion
//! pipeline whose sink is driven from outside.

pub mod codec;
pub mod errors;
pub mod types;
pub mod validate;
pub mod pipeline;
pub mod wire;
