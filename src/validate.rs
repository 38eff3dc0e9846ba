use vstd::prelude::*;

use crate::errors::EventError;
use crate::types::{Event, Payload};

verus! {

/// What serde_json reports for a text that should hold a JSON object:
/// `None` where it parses as one, else the parser's message.
pub uninterp spec fn json_object_error(s: Seq<char>) -> Option<Seq<char>>;

/// Relies on `serde_json::from_str` into a `serde_json::Map`: it succeeds
/// exactly on the texts of JSON objects, and its error message depends on
/// the text alone.
#[verifier::external_body]
fn parse_json_object(s: &str) -> (r: Result<(), String>)
    ensures
        r is Ok <==> json_object_error(s@) is None,
        r is Err ==> json_object_error(s@) == Some(r->Err_0@),
{
    serde_json::from_str::<serde_json::Map<String, serde_json::Value>>(s)
        .map(|_| ())
        .map_err(|e| e.to_string())
}

/// Why a payload fails its structural parse, if it does.
pub open spec fn payload_error(p: Payload) -> Option<Seq<char>> {
    match p {
        Payload::Json(text) => json_object_error(text@),
        Payload::Binary(_) => None,
    }
}

/// The event's timestamp lies beyond `now + skew` (all in milliseconds).
pub open spec fn in_future(e: Event, now: int, skew: int) -> bool {
    e.timestamp > now + skew
}

/// The event passes every rule.
pub open spec fn is_valid(e: Event, now: int, skew: int) -> bool {
    &&& e.id@.len() > 0
    &&& !in_future(e, now, skew)
    &&& payload_error(e.payload) is None
}

/// `err` is the error of the first rule that `e` breaks, given the outcome
/// `check` of its payload's parse; rules are taken in order: identifier,
/// timestamp, payload.
pub open spec fn first_failure(
    e: Event,
    now: int,
    skew: int,
    check: Option<Seq<char>>,
    err: EventError,
) -> bool {
    if e.id@.len() == 0 {
        err == EventError::MissingId
    } else if in_future(e, now, skew) {
        err == EventError::TimestampInFuture
    } else {
        match check {
            Some(detail) => err is PayloadParse && err->PayloadParse_0@ == detail,
            None => false,
        }
    }
}

/// Checks a payload's structure: a JSON payload must be the text of an
/// object; binary payloads always pass.
pub fn check_payload(p: &Payload) -> (r: Result<(), String>)
    ensures
        r is Ok <==> payload_error(*p) is None,
        r is Err ==> payload_error(*p) == Some(r->Err_0@),
{
    match p {
        Payload::Json(text) => parse_json_object(text.as_str()),
        Payload::Binary(_) => Ok(()),
    }
}

/// Applies the rules to `candidate` given the outcome `check` of its
/// payload's parse. The first failure wins; a valid event comes back as it
/// came in.
pub fn validate_with(candidate: Event, now: i64, skew_tolerance: i64, check: Result<(), String>) -> (r:
    Result<Event, EventError>)
    ensures
        r is Ok <==> (candidate.id@.len() > 0 && !in_future(candidate, now as int, skew_tolerance as int)
            && check is Ok),
        r is Ok ==> r->Ok_0 == candidate,
        r is Err ==> first_failure(
            candidate,
            now as int,
            skew_tolerance as int,
            match check {
                Ok(_) => None,
                Err(d) => Some(d@),
            },
            r->Err_0,
        ),
{
    if candidate.id.as_str().is_empty() {
        return Err(EventError::MissingId);
    }
    let bound: i128 = now as i128 + skew_tolerance as i128;
    if candidate.timestamp as i128 > bound {
        return Err(EventError::TimestampInFuture);
    }
    match check {
        Ok(()) => Ok(candidate),
        Err(detail) => Err(EventError::PayloadParse(detail)),
    }
}

/// Validates a candidate event against the clock `now` and the allowed
/// skew (milliseconds). Stateless: the result depends on the arguments
/// alone.
pub fn validate(candidate: Event, now: i64, skew_tolerance: i64) -> (r: Result<Event, EventError>)
    ensures
        r is Ok <==> is_valid(candidate, now as int, skew_tolerance as int),
        r is Ok ==> r->Ok_0 == candidate,
        r is Err ==> first_failure(
            candidate,
            now as int,
            skew_tolerance as int,
            payload_error(candidate.payload),
            r->Err_0,
        ),
        candidate.id@.len() == 0 ==> r == Err::<Event, EventError>(EventError::MissingId),
        candidate.id@.len() > 0 && in_future(candidate, now as int, skew_tolerance as int) ==> r
            == Err::<Event, EventError>(EventError::TimestampInFuture),
{
    let check = check_payload(&candidate.payload);
    validate_with(candidate, now, skew_tolerance, check)
}

} // verus!
