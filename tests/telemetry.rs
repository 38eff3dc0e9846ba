use telemetryx::codec::{decode_binary, encode_binary, round_trip_binary};
use telemetryx::errors::{CodecError, EventError};
use telemetryx::pipeline::{
    DeliveryStep, Lifecycle, OverflowPolicy, Pipeline, PipelineConfig, SinkError, SubmitOutcome,
};
use telemetryx::types::{Event, Payload, DEFAULT_SKEW_TOLERANCE_MS};
use telemetryx::validate::{check_payload, validate, validate_with};
use telemetryx::wire::{payload_from_wire, payload_round_trip, payload_to_wire, WirePayload};

const NOW: i64 = 1_700_000_000_000;

fn json_event(id: &str, timestamp: i64, text: &str) -> Event {
    Event::new(id.to_string(), timestamp, Payload::Json(text.to_string()))
}

fn config(capacity: usize, policy: OverflowPolicy, max_attempts: u32) -> PipelineConfig {
    PipelineConfig {
        capacity,
        policy,
        max_attempts,
        skew_tolerance_ms: DEFAULT_SKEW_TOLERANCE_MS,
        retry_base_delay_ms: 100,
        retry_max_delay_ms: 250,
    }
}

fn sink_failure() -> Result<(), SinkError> {
    Err(SinkError { message: "unavailable".to_string() })
}

#[test]
fn event_can_be_created() {
    let event = Event {
        id: "test-123".to_string(),
        timestamp: 1234567890,
        payload: Payload::Json("{\"key\":\"value\"}".to_string()),
    };
    assert_eq!(event.id, "test-123");
    assert_eq!(event.timestamp, 1234567890);
}

#[test]
fn encode_binary_is_padded_standard_base64() {
    assert_eq!(encode_binary(b"hello"), "aGVsbG8=");
    assert_eq!(encode_binary(b""), "");
    assert_eq!(encode_binary(&[0xfb, 0xff]), "+/8=");
    assert_eq!(encode_binary(b"f"), "Zg==");
    assert_eq!(encode_binary(b"fo"), "Zm8=");
    assert_eq!(encode_binary(b"foobar"), "Zm9vYmFy");
}

#[test]
fn binary_round_trip_keeps_every_byte() {
    let cases: Vec<Vec<u8>> = vec![vec![], vec![0], vec![0xff, 0x00, 0xfe, 0x80], (0..=255).collect()];
    for b in cases {
        let text = encode_binary(&b);
        assert_eq!(decode_binary(&text), Ok(b.clone()));
        assert_eq!(round_trip_binary(&b), b);
    }
}

#[test]
fn decode_binary_rejects_malformed_text() {
    assert_eq!(decode_binary("aGVsbG8="), Ok(b"hello".to_vec()));
    assert_eq!(decode_binary("abc$"), Err(CodecError::Malformed));
    assert_eq!(decode_binary("aGVsbG8"), Err(CodecError::Malformed));
    assert_eq!(decode_binary("aGVsbG9="), Err(CodecError::Malformed));
    assert_eq!(decode_binary("aGVs=bG8"), Err(CodecError::Malformed));
}

#[test]
fn validate_empty_id_is_missing_id() {
    let e = json_event("", NOW + 10_000_000, "not json");
    assert_eq!(validate(e, NOW, DEFAULT_SKEW_TOLERANCE_MS), Err(EventError::MissingId));
}

#[test]
fn validate_far_future_is_timestamp_in_future() {
    let e = json_event("e1", NOW + 1_000_000, "{}");
    assert_eq!(validate(e, NOW, DEFAULT_SKEW_TOLERANCE_MS), Err(EventError::TimestampInFuture));
    let edge = json_event("e1", NOW + DEFAULT_SKEW_TOLERANCE_MS + 1, "{}");
    assert_eq!(validate(edge, NOW, DEFAULT_SKEW_TOLERANCE_MS), Err(EventError::TimestampInFuture));
}

#[test]
fn validate_returns_valid_event_unchanged() {
    let e = json_event("e1", NOW + DEFAULT_SKEW_TOLERANCE_MS, "{\"k\":\"v\"}");
    assert_eq!(validate(e.clone(), NOW, DEFAULT_SKEW_TOLERANCE_MS), Ok(e));
    let b = Event::new("b".to_string(), i64::MIN, Payload::Binary(vec![0xff, 0]));
    assert_eq!(validate(b.clone(), NOW, DEFAULT_SKEW_TOLERANCE_MS), Ok(b));
    let extreme = json_event("x", i64::MAX, "{}");
    assert_eq!(validate(extreme.clone(), i64::MAX, i64::MAX), Ok(extreme));
}

#[test]
fn validate_reports_payload_parse_errors() {
    for text in ["not json", "[1,2]", "{\"k\":", "42"] {
        let e = json_event("e1", NOW, text);
        match validate(e, NOW, DEFAULT_SKEW_TOLERANCE_MS) {
            Err(EventError::PayloadParse(detail)) => assert!(!detail.is_empty()),
            other => panic!("unexpected {:?}", other),
        }
    }
    assert!(check_payload(&Payload::Json("{\"a\":[1,{\"b\":null}]}".to_string())).is_ok());
    assert!(check_payload(&Payload::Binary(vec![1, 2, 3])).is_ok());
}

#[test]
fn validate_with_takes_rules_in_order() {
    let bad = Err("broken".to_string());
    assert_eq!(validate_with(json_event("", NOW, "x"), NOW, 0, bad.clone()), Err(EventError::MissingId));
    assert_eq!(
        validate_with(json_event("a", NOW + 1, "x"), NOW, 0, bad.clone()),
        Err(EventError::TimestampInFuture)
    );
    assert_eq!(
        validate_with(json_event("a", NOW, "x"), NOW, 0, bad),
        Err(EventError::PayloadParse("broken".to_string()))
    );
    let e = json_event("a", NOW, "x");
    assert_eq!(validate_with(e.clone(), NOW, 0, Ok(())), Ok(e));
}

#[test]
fn error_kinds_are_stable_labels() {
    assert_eq!(EventError::MissingId.kind(), "missing_id");
    assert_eq!(EventError::TimestampInFuture.kind(), "timestamp_in_future");
    assert_eq!(EventError::PayloadParse("x".to_string()).kind(), "payload_parse");
}

#[test]
fn valid_event_is_accepted_and_delivered_once() {
    let mut p = Pipeline::new(PipelineConfig::with_policy(OverflowPolicy::Reject));
    let e = json_event("e1", NOW - 1000, "{\"k\":\"v\"}");
    assert_eq!(p.submit(e.clone(), NOW), SubmitOutcome::Accepted);
    assert_eq!(p.queue_len(), 1);
    assert_eq!(p.next_delivery(), Some(&e));
    assert_eq!(p.record_delivery(Ok(())), DeliveryStep::Delivered { retries: 0 });
    assert_eq!(p.delivered(), 1);
    assert_eq!(p.next_delivery(), None);
    assert_eq!(p.record_delivery(Ok(())), DeliveryStep::Idle);
    assert_eq!(p.delivered(), 1);
}

#[test]
fn empty_id_is_rejected_and_never_queued() {
    let mut p = Pipeline::new(PipelineConfig::with_policy(OverflowPolicy::Reject));
    let out = p.submit(json_event("", NOW, "{}"), NOW);
    assert_eq!(out, SubmitOutcome::Rejected(EventError::MissingId));
    assert_eq!(p.queue_len(), 0);
    assert_eq!(p.next_delivery(), None);
    assert_eq!(p.rejections().missing_id, 1);
    assert_eq!(p.accepted(), 0);
}

#[test]
fn far_future_event_is_rejected() {
    let mut p = Pipeline::new(PipelineConfig::with_policy(OverflowPolicy::Block));
    let out = p.submit(json_event("e2", NOW + 1_000_000, "{}"), NOW);
    assert_eq!(out, SubmitOutcome::Rejected(EventError::TimestampInFuture));
    assert_eq!(p.rejections().timestamp_in_future, 1);
    let out = p.submit(json_event("e3", NOW, "nope"), NOW);
    assert!(matches!(out, SubmitOutcome::Rejected(EventError::PayloadParse(_))));
    assert_eq!(p.rejections().payload_parse, 1);
    assert_eq!(p.queue_len(), 0);
}

#[test]
fn three_failures_then_success_records_three_retries() {
    let mut p = Pipeline::new(config(10, OverflowPolicy::Reject, 5));
    assert_eq!(p.submit(json_event("e1", NOW, "{}"), NOW), SubmitOutcome::Accepted);
    assert_eq!(p.record_delivery(sink_failure()), DeliveryStep::RetryAfter { delay_ms: 100 });
    assert_eq!(p.record_delivery(sink_failure()), DeliveryStep::RetryAfter { delay_ms: 200 });
    assert_eq!(p.record_delivery(sink_failure()), DeliveryStep::RetryAfter { delay_ms: 250 });
    assert_eq!(p.record_delivery(Ok(())), DeliveryStep::Delivered { retries: 3 });
    assert_eq!(p.retries(), 3);
    assert_eq!(p.delivered(), 1);
    assert_eq!(p.dead_lettered(), 0);
}

#[test]
fn exhausted_attempts_dead_letter_the_event() {
    let mut p = Pipeline::new(config(10, OverflowPolicy::Reject, 2));
    assert_eq!(p.submit(json_event("a", NOW, "{}"), NOW), SubmitOutcome::Accepted);
    assert_eq!(p.submit(json_event("b", NOW, "{}"), NOW), SubmitOutcome::Accepted);
    assert_eq!(p.record_delivery(sink_failure()), DeliveryStep::RetryAfter { delay_ms: 100 });
    assert_eq!(p.record_delivery(sink_failure()), DeliveryStep::DeadLettered { attempts: 2 });
    assert_eq!(p.dead_lettered(), 1);
    assert_eq!(p.next_delivery().map(|e| e.id.clone()), Some("b".to_string()));
    assert_eq!(p.record_delivery(Ok(())), DeliveryStep::Delivered { retries: 0 });
}

#[test]
fn full_queue_rejects_under_reject_policy() {
    let mut p = Pipeline::new(config(2, OverflowPolicy::Reject, 3));
    assert_eq!(p.submit(json_event("a", NOW, "{}"), NOW), SubmitOutcome::Accepted);
    assert_eq!(p.submit(json_event("b", NOW, "{}"), NOW), SubmitOutcome::Accepted);
    assert_eq!(p.submit(json_event("c", NOW, "{}"), NOW), SubmitOutcome::QueueFull);
    assert_eq!(p.submit(json_event("c", NOW, "{}"), NOW), SubmitOutcome::QueueFull);
    assert_eq!(p.submit(json_event("", NOW, "{}"), NOW), SubmitOutcome::QueueFull);
    assert_eq!(p.submit(json_event("d", NOW + 10_000_000, "bad"), NOW), SubmitOutcome::QueueFull);
    assert_eq!(p.rejections().missing_id, 0);
    assert_eq!(p.queue_len(), 2);
    assert_eq!(p.accepted(), 2);
}

#[test]
fn full_queue_waits_under_block_policy_until_room_frees() {
    let mut p = Pipeline::new(config(1, OverflowPolicy::Block, 3));
    assert_eq!(p.submit(json_event("a", NOW, "{}"), NOW), SubmitOutcome::Accepted);
    assert_eq!(p.submit(json_event("b", NOW, "{}"), NOW), SubmitOutcome::Wait);
    assert_eq!(p.submit(json_event("", NOW, "{}"), NOW), SubmitOutcome::Wait);
    assert_eq!(p.record_delivery(Ok(())), DeliveryStep::Delivered { retries: 0 });
    assert_eq!(p.submit(json_event("b", NOW, "{}"), NOW), SubmitOutcome::Accepted);
}

#[test]
fn drain_refuses_new_events_and_close_counts_lost() {
    let mut p = Pipeline::new(config(10, OverflowPolicy::Reject, 3));
    for id in ["a", "b", "c"] {
        assert_eq!(p.submit(json_event(id, NOW, "{}"), NOW), SubmitOutcome::Accepted);
    }
    p.drain();
    assert_eq!(p.state(), Lifecycle::Draining);
    p.drain();
    assert_eq!(p.state(), Lifecycle::Draining);
    assert_eq!(p.submit(json_event("d", NOW, "{}"), NOW), SubmitOutcome::Closed);
    assert_eq!(p.submit(json_event("", NOW, "{}"), NOW), SubmitOutcome::Closed);
    assert_eq!(p.rejections().missing_id, 0);
    assert_eq!(p.record_delivery(Ok(())), DeliveryStep::Delivered { retries: 0 });
    assert_eq!(p.close(), 2);
    assert_eq!(p.state(), Lifecycle::Stopped);
    assert_eq!(p.lost(), 2);
    assert_eq!(p.queue_len(), 0);
    assert_eq!(p.accepted(), p.delivered() + p.dead_lettered() + p.lost());
    assert_eq!(p.close(), 0);
    assert_eq!(p.lost(), 2);
}

#[test]
fn sequential_events_reach_the_sink_in_order() {
    let mut p = Pipeline::new(config(10, OverflowPolicy::Reject, 2));
    for id in ["first", "second", "third"] {
        assert_eq!(p.submit(json_event(id, NOW, "{}"), NOW), SubmitOutcome::Accepted);
    }
    let mut seen = Vec::new();
    while let Some(e) = p.next_delivery() {
        seen.push(e.id.clone());
        if e.id == "second" && p.retries() == 0 {
            p.record_delivery(sink_failure());
        } else {
            p.record_delivery(Ok(()));
        }
    }
    assert_eq!(seen, vec!["first", "second", "second", "third"]);
}

#[test]
fn default_config_values() {
    let c = PipelineConfig::with_policy(OverflowPolicy::Block);
    assert_eq!(c.capacity, 10_000);
    assert_eq!(c.max_attempts, 5);
    assert_eq!(c.skew_tolerance_ms, 300_000);
    assert_eq!(c.policy, OverflowPolicy::Block);
    assert_eq!(Pipeline::new(c).config(), c);
}

#[test]
fn wire_payloads_round_trip() {
    let bin = Payload::Binary(vec![0xde, 0xad, 0xbe, 0xef, 0]);
    assert_eq!(payload_to_wire(&bin), WirePayload::Base64("3q2+7wA=".to_string()));
    assert_eq!(payload_round_trip(&bin), Ok(bin.clone()));
    let json = Payload::Json("{\"k\":\"v\"}".to_string());
    assert_eq!(payload_to_wire(&json), WirePayload::Json("{\"k\":\"v\"}".to_string()));
    assert_eq!(payload_round_trip(&json), Ok(json));
    assert_eq!(
        payload_from_wire(WirePayload::Base64("***".to_string())),
        Err(CodecError::Malformed)
    );
}
