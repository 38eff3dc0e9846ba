use vstd::prelude::*;

use crate::errors::EventError;
use crate::types::{Event, DEFAULT_SKEW_TOLERANCE_MS};
use crate::validate::{first_failure, is_valid, payload_error, validate};

verus! {

/// Default bound of the intake queue.
pub const DEFAULT_QUEUE_CAPACITY: usize = 10_000;

/// Default number of delivery attempts per event before it is dead-lettered.
pub const DEFAULT_MAX_ATTEMPTS: u32 = 5;

/// Default delay before the first retry, in milliseconds.
pub const DEFAULT_RETRY_BASE_DELAY_MS: u64 = 100;

/// Default upper bound on the delay between retries, in milliseconds.
pub const DEFAULT_RETRY_MAX_DELAY_MS: u64 = 10_000;

/// What intake does when the queue is full.
#[derive(Debug, Clone, Copy, PartialEq, Eq, Structural)]
pub enum OverflowPolicy {
    /// Answer at once that the event was not taken; the producer retries.
    Reject,
    /// Ask the producer to wait until a slot frees and submit again.
    Block,
}

/// The tuning of a pipeline.
#[derive(Debug, Clone, Copy, PartialEq, Eq, Structural)]
pub struct PipelineConfig {
    pub capacity: usize,
    pub policy: OverflowPolicy,
    pub max_attempts: u32,
    pub skew_tolerance_ms: i64,
    pub retry_base_delay_ms: u64,
    pub retry_max_delay_ms: u64,
}

impl PipelineConfig {
    /// A configuration is usable when the queue holds at least one event,
    /// each event gets at least one delivery attempt, and the skew
    /// tolerance is not negative.
    pub open spec fn usable(self) -> bool {
        self.capacity > 0 && self.max_attempts > 0 && self.skew_tolerance_ms >= 0
    }

    /// The default tuning with the given overflow policy.
    pub fn with_policy(policy: OverflowPolicy) -> (r: PipelineConfig)
        ensures
            r.usable(),
            r.capacity == DEFAULT_QUEUE_CAPACITY,
            r.policy == policy,
            r.max_attempts == DEFAULT_MAX_ATTEMPTS,
            r.skew_tolerance_ms == DEFAULT_SKEW_TOLERANCE_MS,
            r.retry_base_delay_ms == DEFAULT_RETRY_BASE_DELAY_MS,
            r.retry_max_delay_ms == DEFAULT_RETRY_MAX_DELAY_MS,
    {
        PipelineConfig {
            capacity: DEFAULT_QUEUE_CAPACITY,
            policy,
            max_attempts: DEFAULT_MAX_ATTEMPTS,
            skew_tolerance_ms: DEFAULT_SKEW_TOLERANCE_MS,
            retry_base_delay_ms: DEFAULT_RETRY_BASE_DELAY_MS,
            retry_max_delay_ms: DEFAULT_RETRY_MAX_DELAY_MS,
        }
    }
}

/// The delay before retry number `failures` (counted from one): the base
/// delay times the number of failures so far, capped at the maximum.
pub open spec fn retry_delay(config: PipelineConfig, failures: nat) -> nat {
    let d = config.retry_base_delay_ms * failures;
    if d > config.retry_max_delay_ms {
        config.retry_max_delay_ms as nat
    } else {
        d as nat
    }
}

/// An upper bound on the sink answers still needed to empty the queue:
/// every queued event may take up to `max_attempts` answers, less the
/// failures that the head has already had.
pub open spec fn pending_work(v: PipelineView) -> int {
    v.queue.len() * v.config.max_attempts - v.head_failures
}

/// Where the pipeline stands in its life.
#[derive(Debug, Clone, Copy, PartialEq, Eq, Structural)]
pub enum Lifecycle {
    /// Taking new events.
    Running,
    /// Refusing new events, still delivering those queued.
    Draining,
    /// Closed; whatever was still queued has been counted as lost.
    Stopped,
}

/// The answer to a producer that submitted an event.
#[derive(Debug, Clone, PartialEq, Eq)]
pub enum SubmitOutcome {
    /// The event was valid and is queued: it will be attempted at least once.
    Accepted,
    /// The event broke a rule; it was counted and discarded.
    Rejected(EventError),
    /// The queue is full and the policy is to reject: retry later.
    QueueFull,
    /// The queue is full and the policy is to block: wait for a slot.
    Wait,
    /// The pipeline is draining or stopped and takes no new events.
    Closed,
}

/// A failed delivery, as the sink reports it.
#[derive(Debug, Clone, PartialEq, Eq)]
pub struct SinkError {
    pub message: String,
}

/// What the pipeline did with the answer of the sink for the event at the
/// head of the queue.
#[derive(Debug, Clone, Copy, PartialEq, Eq, Structural)]
pub enum DeliveryStep {
    /// Nothing was queued.
    Idle,
    /// The event was delivered after this many failed attempts.
    Delivered { retries: u32 },
    /// Try the same event again after this many milliseconds.
    RetryAfter { delay_ms: u64 },
    /// The event failed on every allowed attempt and was set aside.
    DeadLettered { attempts: u32 },
}

/// Per-kind counters of rejected events.
#[derive(Debug, Clone, Copy, PartialEq, Eq, Structural)]
pub struct RejectionCounts {
    pub missing_id: u64,
    pub timestamp_in_future: u64,
    pub payload_parse: u64,
}

/// The state of a pipeline as a mathematical value.
pub ghost struct PipelineView {
    pub config: PipelineConfig,
    pub state: Lifecycle,
    /// Events waiting for the sink, oldest first.
    pub queue: Seq<Event>,
    /// Failed attempts so far on the event at the head of the queue.
    pub head_failures: nat,
    /// Every accepted event, in order of acceptance.
    pub admitted: Seq<Event>,
    /// Every event that left the queue through the sink (delivered or
    /// dead-lettered), in the order it left.
    pub settled: Seq<Event>,
    /// Every event still queued at forced close.
    pub dropped: Seq<Event>,
    pub accepted: nat,
    pub delivered: nat,
    pub dead_lettered: nat,
    pub lost: nat,
    pub retries: nat,
    pub rejections: RejectionCounts,
}

impl PipelineView {
    /// The invariant of a pipeline: the queue respects its bound, and every
    /// accepted event is accounted for exactly once, in order: first those
    /// that the sink settled, then those lost at close, then those queued.
    pub open spec fn wf(self) -> bool {
        &&& self.config.usable()
        &&& self.queue.len() <= self.config.capacity
        &&& self.head_failures < self.config.max_attempts
        &&& (self.queue.len() == 0 ==> self.head_failures == 0)
        &&& (self.state == Lifecycle::Stopped ==> self.queue.len() == 0)
        &&& (self.state != Lifecycle::Stopped ==> self.dropped.len() == 0)
        &&& self.admitted == self.settled + self.dropped + self.queue
        &&& self.accepted == self.admitted.len()
        &&& self.delivered + self.dead_lettered == self.settled.len()
        &&& self.lost == self.dropped.len()
    }

    /// The queue cannot take another event.
    pub open spec fn full(self) -> bool {
        self.queue.len() >= self.config.capacity || self.accepted >= u64::MAX
    }

    /// `self` with the rejection counter of `err`'s kind moved up by one,
    /// staying at the largest value once there.
    pub open spec fn count_rejection(self, err: EventError) -> PipelineView {
        let c = self.rejections;
        let n = match err {
            EventError::MissingId => RejectionCounts {
                missing_id: c.missing_id.saturating_add(1),
                ..c
            },
            EventError::TimestampInFuture => RejectionCounts {
                timestamp_in_future: c.timestamp_in_future.saturating_add(1),
                ..c
            },
            EventError::PayloadParse(_) => RejectionCounts {
                payload_parse: c.payload_parse.saturating_add(1),
                ..c
            },
        };
        PipelineView { rejections: n, ..self }
    }
}

/// A bounded intake queue between producers and a sink. Producers submit;
/// the owner hands the head event to the sink and reports back its answer,
/// and the pipeline decides whether to move on, retry or dead-letter.
pub struct Pipeline {
    config: PipelineConfig,
    state: Lifecycle,
    queue: Vec<Event>,
    head_failures: u32,
    accepted: u64,
    delivered: u64,
    dead_lettered: u64,
    lost: u64,
    retries: u64,
    rejections: RejectionCounts,
    admitted: Ghost<Seq<Event>>,
    settled: Ghost<Seq<Event>>,
    dropped: Ghost<Seq<Event>>,
}

impl View for Pipeline {
    type V = PipelineView;

    closed spec fn view(&self) -> PipelineView {
        PipelineView {
            config: self.config,
            state: self.state,
            queue: self.queue@,
            head_failures: self.head_failures as nat,
            admitted: self.admitted@,
            settled: self.settled@,
            dropped: self.dropped@,
            accepted: self.accepted as nat,
            delivered: self.delivered as nat,
            dead_lettered: self.dead_lettered as nat,
            lost: self.lost as nat,
            retries: self.retries as nat,
            rejections: self.rejections,
        }
    }
}

impl Pipeline {
    /// The pipeline's invariant, over its view.
    pub open spec fn wf(&self) -> bool {
        self@.wf()
    }

    /// A running pipeline with an empty queue and all counters at zero.
    pub fn new(config: PipelineConfig) -> (r: Pipeline)
        requires
            config.usable(),
        ensures
            r.wf(),
            r@.config == config,
            r@.state == Lifecycle::Running,
            r@.queue.len() == 0,
            r@.admitted.len() == 0,
            r@.settled.len() == 0,
            r@.head_failures == 0,
            r@.delivered == 0,
            r@.dead_lettered == 0,
            r@.lost == 0,
            r@.retries == 0,
            r@.rejections == (RejectionCounts { missing_id: 0, timestamp_in_future: 0, payload_parse: 0 }),
    {
        let r = Pipeline {
            config,
            state: Lifecycle::Running,
            queue: Vec::new(),
            head_failures: 0,
            accepted: 0,
            delivered: 0,
            dead_lettered: 0,
            lost: 0,
            retries: 0,
            rejections: RejectionCounts { missing_id: 0, timestamp_in_future: 0, payload_parse: 0 },
            admitted: Ghost(Seq::empty()),
            settled: Ghost(Seq::empty()),
            dropped: Ghost(Seq::empty()),
        };
        assert(r@.admitted =~= r@.settled + r@.dropped + r@.queue);
        r
    }

    /// The tuning the pipeline was made with.
    pub fn config(&self) -> (r: PipelineConfig)
        ensures
            r == self@.config,
    {
        self.config
    }

    /// Where the pipeline stands in its life.
    pub fn state(&self) -> (r: Lifecycle)
        ensures
            r == self@.state,
    {
        self.state
    }

    /// How many events wait for the sink.
    pub fn queue_len(&self) -> (r: usize)
        ensures
            r == self@.queue.len(),
    {
        self.queue.len()
    }

    /// How many events were accepted since the pipeline was made.
    pub fn accepted(&self) -> (r: u64)
        ensures
            r == self@.accepted,
    {
        self.accepted
    }

    /// How many events the sink took.
    pub fn delivered(&self) -> (r: u64)
        ensures
            r == self@.delivered,
    {
        self.delivered
    }

    /// How many events were set aside after failing every attempt.
    pub fn dead_lettered(&self) -> (r: u64)
        ensures
            r == self@.dead_lettered,
    {
        self.dead_lettered
    }

    /// How many events were still queued at forced close.
    pub fn lost(&self) -> (r: u64)
        ensures
            r == self@.lost,
    {
        self.lost
    }

    /// How many failed deliveries were followed by a retry.
    pub fn retries(&self) -> (r: u64)
        ensures
            r == self@.retries,
    {
        self.retries
    }

    /// The rejected events, counted by error kind.
    pub fn rejections(&self) -> (r: RejectionCounts)
        ensures
            r == self@.rejections,
    {
        self.rejections
    }

    /// Offers an event to the pipeline at clock `now` (epoch milliseconds).
    /// A draining or stopped pipeline refuses it. A full queue answers by
    /// its overflow policy whatever the event, so that a producer told the
    /// queue is full is never told anything else. Only when there is room is
    /// the event validated: an invalid one is counted under its error's kind
    /// and discarded, a valid one is queued at the back. Nothing but the
    /// answer changes when the event is not taken.
    pub fn submit(&mut self, e: Event, now: i64) -> (r: SubmitOutcome)
        requires
            old(self).wf(),
        ensures
            final(self).wf(),
            old(self)@.state != Lifecycle::Running ==> r == SubmitOutcome::Closed && final(self)@
                == old(self)@,
            old(self)@.state == Lifecycle::Running && old(self)@.full() ==> {
                &&& r == (if old(self)@.config.policy == OverflowPolicy::Reject {
                    SubmitOutcome::QueueFull
                } else {
                    SubmitOutcome::Wait
                })
                &&& final(self)@ == old(self)@
            },
            old(self)@.state == Lifecycle::Running && !old(self)@.full() && !is_valid(
                e,
                now as int,
                old(self)@.config.skew_tolerance_ms as int,
            ) ==> {
                &&& r is Rejected
                &&& first_failure(
                    e,
                    now as int,
                    old(self)@.config.skew_tolerance_ms as int,
                    payload_error(e.payload),
                    r->Rejected_0,
                )
                &&& final(self)@ == old(self)@.count_rejection(r->Rejected_0)
            },
            old(self)@.state == Lifecycle::Running && !old(self)@.full() && is_valid(
                e,
                now as int,
                old(self)@.config.skew_tolerance_ms as int,
            ) ==> {
                &&& r == SubmitOutcome::Accepted
                &&& final(self)@ == (PipelineView {
                    queue: old(self)@.queue.push(e),
                    admitted: old(self)@.admitted.push(e),
                    accepted: old(self)@.accepted + 1,
                    ..old(self)@
                })
            },
    {
        if self.state != Lifecycle::Running {
            return SubmitOutcome::Closed;
        }
        if self.queue.len() >= self.config.capacity || self.accepted == u64::MAX {
            return match self.config.policy {
                OverflowPolicy::Reject => SubmitOutcome::QueueFull,
                OverflowPolicy::Block => SubmitOutcome::Wait,
            };
        }
        match validate(e, now, self.config.skew_tolerance_ms) {
            Err(err) => {
                match &err {
                    EventError::MissingId => {
                        self.rejections.missing_id = self.rejections.missing_id.saturating_add(1);
                    },
                    EventError::TimestampInFuture => {
                        self.rejections.timestamp_in_future =
                        self.rejections.timestamp_in_future.saturating_add(1);
                    },
                    EventError::PayloadParse(_) => {
                        self.rejections.payload_parse = self.rejections.payload_parse.saturating_add(
                            1,
                        );
                    },
                }
                SubmitOutcome::Rejected(err)
            },
            Ok(e) => {
                self.admitted = Ghost(self.admitted@.push(e));
                self.accepted = self.accepted + 1;
                self.queue.push(e);
                assert(self@.admitted =~= self@.settled + self@.dropped + self@.queue);
                SubmitOutcome::Accepted
            },
        }
    }

    /// The event that the sink should be given next: the oldest queued.
    pub fn next_delivery(&self) -> (r: Option<&Event>)
        requires
            self.wf(),
        ensures
            self@.queue.len() == 0 ==> r is None,
            self@.queue.len() > 0 ==> r is Some && *r->Some_0 == self@.queue[0],
    {
        if self.queue.len() == 0 {
            None
        } else {
            Some(&self.queue[0])
        }
    }

    /// Takes the sink's answer for the event at the head of the queue. On
    /// success the event leaves the queue as delivered. On failure it is
    /// retried after a growing delay until it has failed `max_attempts`
    /// times, and then leaves the queue as dead-lettered.
    pub fn record_delivery(&mut self, answer: Result<(), SinkError>) -> (r: DeliveryStep)
        requires
            old(self).wf(),
        ensures
            final(self).wf(),
            old(self)@.queue.len() == 0 ==> r == DeliveryStep::Idle && final(self)@ == old(self)@,
            old(self)@.queue.len() > 0 && answer is Ok ==> {
                &&& r == (DeliveryStep::Delivered { retries: old(self)@.head_failures as u32 })
                &&& final(self)@ == (PipelineView {
                    queue: old(self)@.queue.drop_first(),
                    settled: old(self)@.settled.push(old(self)@.queue[0]),
                    head_failures: 0,
                    delivered: old(self)@.delivered + 1,
                    ..old(self)@
                })
            },
            old(self)@.queue.len() > 0 && answer is Err && old(self)@.head_failures + 1
                >= old(self)@.config.max_attempts ==> {
                &&& r == (DeliveryStep::DeadLettered { attempts: old(self)@.config.max_attempts })
                &&& final(self)@ == (PipelineView {
                    queue: old(self)@.queue.drop_first(),
                    settled: old(self)@.settled.push(old(self)@.queue[0]),
                    head_failures: 0,
                    dead_lettered: old(self)@.dead_lettered + 1,
                    ..old(self)@
                })
            },
            old(self)@.queue.len() > 0 && answer is Err && old(self)@.head_failures + 1
                < old(self)@.config.max_attempts ==> {
                &&& r == (DeliveryStep::RetryAfter {
                    delay_ms: retry_delay(old(self)@.config, old(self)@.head_failures + 1) as u64,
                })
                &&& final(self)@ == (PipelineView {
                    head_failures: old(self)@.head_failures + 1,
                    retries: (old(self)@.retries as u64).saturating_add(1) as nat,
                    ..old(self)@
                })
            },
            old(self)@.queue.len() > 0 ==> pending_work(final(self)@) < pending_work(old(self)@),
    {
        if self.queue.len() == 0 {
            return DeliveryStep::Idle;
        }
        proof {
            assert(self@.settled.len() + 1 <= self@.admitted.len());
        }
        match answer {
            Ok(()) => {
                let failures = self.head_failures;
                let head = self.queue.remove(0);
                self.settled = Ghost(self.settled@.push(head));
                self.delivered = self.delivered + 1;
                self.head_failures = 0;
                assert(self@.admitted =~= self@.settled + self@.dropped + self@.queue);
                proof {
                    lemma_work_drops(old(self)@, self@);
                }
                DeliveryStep::Delivered { retries: failures }
            },
            Err(_) => {
                if self.head_failures + 1 >= self.config.max_attempts {
                    let head = self.queue.remove(0);
                    self.settled = Ghost(self.settled@.push(head));
                    self.dead_lettered = self.dead_lettered + 1;
                    self.head_failures = 0;
                    assert(self@.admitted =~= self@.settled + self@.dropped + self@.queue);
                    proof {
                        lemma_work_drops(old(self)@, self@);
                    }
                    DeliveryStep::DeadLettered { attempts: self.config.max_attempts }
                } else {
                    self.head_failures = self.head_failures + 1;
                    self.retries = self.retries.saturating_add(1);
                    let base: u128 = self.config.retry_base_delay_ms as u128;
                    let n: u128 = self.head_failures as u128;
                    assert(base * n <= u64::MAX as int * u32::MAX as int) by (nonlinear_arith)
                        requires
                            base <= u64::MAX,
                            n <= u32::MAX,
                    ;
                    let d: u128 = base * n;
                    let delay_ms: u64 = if d > self.config.retry_max_delay_ms as u128 {
                        self.config.retry_max_delay_ms
                    } else {
                        d as u64
                    };
                    DeliveryStep::RetryAfter { delay_ms }
                }
            },
        }
    }

    /// Stops intake: a running pipeline starts draining; otherwise nothing
    /// changes, so a second drain is a no-op.
    pub fn drain(&mut self)
        requires
            old(self).wf(),
        ensures
            final(self).wf(),
            final(self)@ == (PipelineView {
                state: if old(self)@.state == Lifecycle::Running {
                    Lifecycle::Draining
                } else {
                    old(self)@.state
                },
                ..old(self)@
            }),
    {
        if self.state == Lifecycle::Running {
            self.state = Lifecycle::Draining;
        }
    }

    /// Forced close: every event still queued is counted as lost, and the
    /// pipeline stops. Returns how many were lost by this call.
    pub fn close(&mut self) -> (r: u64)
        requires
            old(self).wf(),
        ensures
            final(self).wf(),
            r == old(self)@.queue.len(),
            final(self)@ == (PipelineView {
                state: Lifecycle::Stopped,
                queue: Seq::empty(),
                head_failures: 0,
                dropped: old(self)@.dropped + old(self)@.queue,
                lost: old(self)@.lost + old(self)@.queue.len(),
                ..old(self)@
            }),
    {
        let n = self.queue.len();
        proof {
            assert(self@.admitted.len() == self@.settled.len() + self@.dropped.len() + n);
        }
        self.dropped = Ghost(self.dropped@ + self.queue@);
        self.lost = self.lost + n as u64;
        self.queue.clear();
        self.state = Lifecycle::Stopped;
        self.head_failures = 0;
        assert(self@.admitted =~= self@.settled + self@.dropped + self@.queue);
        n as u64
    }
}

/// Taking the head out of a queue lowers the pending work.
proof fn lemma_work_drops(before: PipelineView, after: PipelineView)
    requires
        before.wf(),
        before.queue.len() > 0,
        after.config == before.config,
        after.queue.len() == before.queue.len() - 1,
        after.head_failures == 0,
    ensures
        pending_work(after) < pending_work(before),
{
    let m = before.config.max_attempts as int;
    let n = after.queue.len() as int;
    assert(pending_work(before) == (n + 1) * m - before.head_failures);
    assert((n + 1) * m == n * m + m) by (nonlinear_arith);
}

/// Every accepted event is accounted for exactly once: delivered,
/// dead-lettered, lost at forced close, or still queued. At forced close the
/// lost count is exactly what was still queued, so nothing vanishes
/// without being counted.
pub proof fn lemma_every_event_accounted(v: PipelineView)
    requires
        v.wf(),
    ensures
        v.accepted == v.delivered + v.dead_lettered + v.lost + v.queue.len(),
        v.state == Lifecycle::Stopped ==> v.accepted == v.delivered + v.dead_lettered + v.lost,
{
}

/// Events reach the sink in the order in which they were accepted: those
/// that left the queue are the oldest accepted ones, in order, and the next
/// one offered to the sink is the oldest accepted event not yet settled.
pub proof fn lemma_sink_order(v: PipelineView)
    requires
        v.wf(),
    ensures
        v.settled.len() <= v.admitted.len(),
        v.settled == v.admitted.subrange(0, v.settled.len() as int),
        v.queue.len() > 0 ==> v.queue[0] == v.admitted[v.settled.len() as int],
{
    assert(v.settled =~= v.admitted.subrange(0, v.settled.len() as int));
    if v.queue.len() > 0 {
        assert(v.state != Lifecycle::Stopped);
        assert(v.admitted[v.settled.len() as int] == v.queue[0]);
    }
}

/// Under either policy a full queue regains room as soon as its head is
/// settled: the next submission of a valid event by a running pipeline is
/// then taken, unless the acceptance counter itself is exhausted.
pub proof fn lemma_room_after_settle(before: PipelineView, after: PipelineView)
    requires
        before.wf(),
        after.wf(),
        before.queue.len() > 0,
        after.config == before.config,
        after.queue == before.queue.drop_first(),
        after.accepted == before.accepted,
        before.accepted < u64::MAX,
    ensures
        !after.full(),
{
}

} // verus!
