use vstd::prelude::*;

use crate::codec::{base64_of, decode_binary, encode_binary, is_base64_text};
use crate::errors::CodecError;
use crate::types::{Payload, PayloadView};

verus! {

/// A payload as it travels inside a JSON envelope: structured payloads as
/// their JSON text, binary payloads as base64 text.
#[derive(Debug, Clone, PartialEq, Eq)]
pub enum WirePayload {
    Json(String),
    Base64(String),
}

/// Turns a payload into its wire form; binary bytes become base64.
pub fn payload_to_wire(p: &Payload) -> (r: WirePayload)
    ensures
        p is Json ==> r == WirePayload::Json(p->Json_0),
        p is Binary ==> r is Base64 && r->Base64_0@ == base64_of(p->Binary_0@),
{
    match p {
        Payload::Json(text) => WirePayload::Json(text.clone()),
        Payload::Binary(bytes) => WirePayload::Base64(encode_binary(bytes.as_slice())),
    }
}

/// Reads a payload from its wire form. A base64 text that is not the
/// encoding of any bytes is `Malformed`; nothing is truncated or guessed.
pub fn payload_from_wire(w: WirePayload) -> (r: Result<Payload, CodecError>)
    ensures
        w is Json ==> r == Ok::<Payload, CodecError>(Payload::Json(w->Json_0)),
        w is Base64 ==> (r is Ok <==> is_base64_text(w->Base64_0@)),
        w is Base64 && r is Ok ==> r->Ok_0 is Binary && base64_of(r->Ok_0->Binary_0@)
            == w->Base64_0@,
        w is Base64 && r is Err ==> r == Err::<Payload, CodecError>(CodecError::Malformed),
        w is Base64 ==> forall|b: Seq<u8>|
            base64_of(b) == w->Base64_0@ ==> (r is Ok && r->Ok_0@ == PayloadView::Binary(b)),
{
    match w {
        WirePayload::Json(text) => Ok(Payload::Json(text)),
        WirePayload::Base64(text) => match decode_binary(text.as_str()) {
            Ok(bytes) => Ok(Payload::Binary(bytes)),
            Err(e) => Err(e),
        },
    }
}

/// A payload survives the trip to its wire form and back unchanged; for
/// binary payloads, byte for byte.
pub fn payload_round_trip(p: &Payload) -> (r: Result<Payload, CodecError>)
    ensures
        r is Ok && r->Ok_0@ == p@,
{
    let w = payload_to_wire(p);
    payload_from_wire(w)
}

} // verus!
