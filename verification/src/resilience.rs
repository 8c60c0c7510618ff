//! Resilience layer: circuit breaker, offline buffering and retry policy.
//!
//! The circuit breaker is a pure state machine over explicit millisecond
//! clocks handed in by the caller; the single driving task reads the clock
//! and feeds it to `record_failure` and `try_half_open`.

use vstd::prelude::*;
use crate::types::TelemetryPacket;
use crate::types::TelemetryPacketModel;

verus! {

/// Resilience error types.
#[derive(Debug)]
pub enum ResilienceError {
    /// Dispatch was refused because the circuit breaker is open.
    CircuitBreakerOpen(String),
    /// The offline buffer is full; the packet was not stored.
    BufferFull,
    /// A retry loop gave up after its configured number of attempts.
    RetryExhausted(String),
}

/// Circuit breaker state.
#[derive(Debug, Clone, Copy, PartialEq, Eq, Structural)]
pub enum CircuitState {
    /// Circuit is closed, requests pass through.
    Closed,
    /// Circuit is open, requests are rejected.
    Open,
    /// Circuit is half-open, testing recovery.
    HalfOpen,
}

/// Configuration for the resilience layer.
#[derive(Debug, Clone, Copy, PartialEq, Eq, Structural)]
pub struct ResilienceConfig {
    /// Maximum number of retry attempts.
    pub max_retries: u32,
    /// Initial backoff duration in milliseconds.
    pub initial_backoff_ms: u64,
    /// Maximum backoff duration in milliseconds.
    pub max_backoff_ms: u64,
    /// Integer multiplier for exponential backoff.
    pub backoff_multiplier: u64,
    /// Consecutive failures before the circuit breaker opens.
    pub failure_threshold: u32,
    /// Seconds an open breaker waits before probation is allowed.
    pub half_open_timeout_secs: u64,
    /// Maximum number of packets the offline buffer holds.
    pub buffer_size: usize,
}

impl Default for ResilienceConfig {
    fn default() -> (r: ResilienceConfig)
        ensures
            r == (ResilienceConfig {
                max_retries: 3u32,
                initial_backoff_ms: 100u64,
                max_backoff_ms: 10000u64,
                backoff_multiplier: 2u64,
                failure_threshold: 5u32,
                half_open_timeout_secs: 30u64,
                buffer_size: 1000usize,
            }),
    {
        ResilienceConfig {
            max_retries: 3,
            initial_backoff_ms: 100,
            max_backoff_ms: 10000,
            backoff_multiplier: 2,
            failure_threshold: 5,
            half_open_timeout_secs: 30,
            buffer_size: 1000,
        }
    }
}

/// Number of consecutive half-open successes required to close the breaker.
pub const HALF_OPEN_SUCCESSES_TO_CLOSE: u32 = 3;

/// Mathematical model of a [`CircuitBreaker`].
pub ghost struct BreakerModel {
    pub state: CircuitState,
    pub failure_count: u32,
    pub success_count: u32,
    pub failure_threshold: u32,
    pub half_open_timeout_ms: u64,
    pub last_open_time: Option<u64>,
}

impl BreakerModel {
    /// Well-formedness: the success streak never reaches the closing count
    /// without closing, failures only accumulate below the threshold while
    /// closed, an open breaker remembers when it opened, and the streak is
    /// zero outside probation.
    pub open spec fn wf(self) -> bool {
        &&& self.success_count < HALF_OPEN_SUCCESSES_TO_CLOSE
        &&& (self.state is Closed ==> self.failure_count < self.failure_threshold || (
        self.failure_threshold == 0 && self.failure_count == 0))
        &&& (self.state is Open ==> self.last_open_time is Some)
        &&& (!(self.state is HalfOpen) ==> self.success_count == 0)
    }
}

/// Breaker transition on a recorded success: a closed breaker forgets its
/// failures; a half-open breaker counts the streak and closes on the third
/// consecutive success; an open breaker is unchanged.
pub open spec fn spec_record_success(b: BreakerModel) -> BreakerModel {
    match b.state {
        CircuitState::Closed => BreakerModel { failure_count: 0u32, ..b },
        CircuitState::HalfOpen => if b.success_count + 1 >= HALF_OPEN_SUCCESSES_TO_CLOSE {
            BreakerModel {
                state: CircuitState::Closed,
                failure_count: 0u32,
                success_count: 0u32,
                ..b
            }
        } else {
            BreakerModel { success_count: (b.success_count + 1) as u32, ..b }
        },
        CircuitState::Open => b,
    }
}

/// Breaker transition on a recorded failure at time `now_ms`: a closed
/// breaker counts it and opens when the threshold is reached (resetting the
/// count for the next closed period); any half-open failure reopens the
/// breaker; an open breaker is unchanged.
pub open spec fn spec_record_failure(b: BreakerModel, now_ms: u64) -> BreakerModel {
    match b.state {
        CircuitState::Closed => if b.failure_count + 1 >= b.failure_threshold {
            BreakerModel {
                state: CircuitState::Open,
                failure_count: 0u32,
                last_open_time: Option::Some(now_ms),
                ..b
            }
        } else {
            BreakerModel { failure_count: (b.failure_count + 1) as u32, ..b }
        },
        CircuitState::HalfOpen => BreakerModel {
            state: CircuitState::Open,
            success_count: 0u32,
            last_open_time: Option::Some(now_ms),
            ..b
        },
        CircuitState::Open => b,
    }
}

/// Whether an open breaker's half-open timeout has elapsed at `now_ms`.
pub open spec fn spec_timeout_elapsed(b: BreakerModel, now_ms: u64) -> bool {
    match b.last_open_time {
        Option::Some(t) => t <= now_ms && now_ms - t >= b.half_open_timeout_ms,
        Option::None => false,
    }
}

/// Breaker transition on a pre-dispatch check at time `now_ms`: an open
/// breaker whose timeout has elapsed enters probation with both counters
/// reset; anything else is unchanged.
pub open spec fn spec_try_half_open(b: BreakerModel, now_ms: u64) -> BreakerModel {
    if b.state is Open && spec_timeout_elapsed(b, now_ms) {
        BreakerModel {
            state: CircuitState::HalfOpen,
            failure_count: 0u32,
            success_count: 0u32,
            ..b
        }
    } else {
        b
    }
}

/// Circuit breaker protecting the dispatch path against cascading failures.
#[derive(Debug)]
pub struct CircuitBreaker {
    state: CircuitState,
    failure_count: u32,
    success_count: u32,
    failure_threshold: u32,
    half_open_timeout_ms: u64,
    last_open_time: Option<u64>,
}

impl View for CircuitBreaker {
    type V = BreakerModel;

    closed spec fn view(&self) -> BreakerModel {
        BreakerModel {
            state: self.state,
            failure_count: self.failure_count,
            success_count: self.success_count,
            failure_threshold: self.failure_threshold,
            half_open_timeout_ms: self.half_open_timeout_ms,
            last_open_time: self.last_open_time,
        }
    }
}

impl CircuitBreaker {
    /// A new closed breaker with zeroed counters.
    pub fn new(failure_threshold: u32, half_open_timeout_secs: u64) -> (r: CircuitBreaker)
        requires
            half_open_timeout_secs <= u64::MAX / 1000,
        ensures
            r@ == (BreakerModel {
                state: CircuitState::Closed,
                failure_count: 0u32,
                success_count: 0u32,
                failure_threshold: failure_threshold,
                half_open_timeout_ms: (half_open_timeout_secs * 1000) as u64,
                last_open_time: Option::None,
            }),
            r@.wf(),
    {
        CircuitBreaker {
            state: CircuitState::Closed,
            failure_count: 0,
            success_count: 0,
            failure_threshold,
            half_open_timeout_ms: half_open_timeout_secs * 1000,
            last_open_time: Option::None,
        }
    }

    /// Current circuit state.
    pub fn state(&self) -> (r: CircuitState)
        ensures
            r == self@.state,
    {
        self.state
    }

    /// Current count of consecutive failures in the closed state.
    pub fn failure_count(&self) -> (r: u32)
        ensures
            r == self@.failure_count,
    {
        self.failure_count
    }

    /// Record a successful operation.
    pub fn record_success(&mut self)
        requires
            old(self)@.wf(),
        ensures
            final(self)@ == spec_record_success(old(self)@),
            final(self)@.wf(),
    {
        match self.state {
            CircuitState::Closed => {
                self.failure_count = 0;
            },
            CircuitState::HalfOpen => {
                let success = self.success_count + 1;
                if success >= HALF_OPEN_SUCCESSES_TO_CLOSE {
                    self.state = CircuitState::Closed;
                    self.failure_count = 0;
                    self.success_count = 0;
                } else {
                    self.success_count = success;
                }
            },
            CircuitState::Open => {},
        }
    }

    /// Record a failed operation observed at `now_ms`.
    pub fn record_failure(&mut self, now_ms: u64)
        requires
            old(self)@.wf(),
        ensures
            final(self)@ == spec_record_failure(old(self)@, now_ms),
            final(self)@.wf(),
    {
        match self.state {
            CircuitState::Closed => {
                if self.failure_count >= u32::MAX - 1 || self.failure_count + 1
                    >= self.failure_threshold {
                    self.state = CircuitState::Open;
                    self.failure_count = 0;
                    self.last_open_time = Option::Some(now_ms);
                } else {
                    self.failure_count = self.failure_count + 1;
                }
            },
            CircuitState::HalfOpen => {
                self.state = CircuitState::Open;
                self.success_count = 0;
                self.last_open_time = Option::Some(now_ms);
            },
            CircuitState::Open => {},
        }
    }

    /// Move an open breaker to half-open once its timeout has elapsed at
    /// `now_ms`; checked lazily before each dispatch attempt.
    pub fn try_half_open(&mut self, now_ms: u64)
        requires
            old(self)@.wf(),
        ensures
            final(self)@ == spec_try_half_open(old(self)@, now_ms),
            final(self)@.wf(),
    {
        match self.state {
            CircuitState::Open => {
                match self.last_open_time {
                    Option::Some(t) => {
                        if t <= now_ms && now_ms - t >= self.half_open_timeout_ms {
                            self.state = CircuitState::HalfOpen;
                            self.failure_count = 0;
                            self.success_count = 0;
                        }
                    },
                    Option::None => {},
                }
            },
            _ => {},
        }
    }
}

/// Folding a sequence of failures (by their observation times) through the
/// breaker, oldest first.
pub open spec fn spec_record_failures(b: BreakerModel, times: Seq<u64>) -> BreakerModel
    decreases times.len(),
{
    if times.len() == 0 {
        b
    } else {
        spec_record_failures(spec_record_failure(b, times[0]), times.skip(1))
    }
}

/// A closed breaker stays closed under any sequence of failures that keeps
/// the consecutive-failure count below the threshold; the count just grows
/// by the number of failures.
pub proof fn lemma_closed_below_threshold(b: BreakerModel, times: Seq<u64>)
    requires
        b.wf(),
        b.state is Closed,
        b.failure_count + times.len() < b.failure_threshold,
    ensures
        spec_record_failures(b, times).state is Closed,
        spec_record_failures(b, times).failure_count == b.failure_count + times.len(),
        spec_record_failures(b, times).wf(),
    decreases times.len(),
{
    if times.len() > 0 {
        let b1 = spec_record_failure(b, times[0]);
        lemma_closed_below_threshold(b1, times.skip(1));
    }
}

/// Starting from a fresh closed breaker, exactly `failure_threshold`
/// consecutive failures open the breaker, and it records the time of the
/// failure that opened it.
pub proof fn lemma_threshold_failures_open(b: BreakerModel, times: Seq<u64>)
    requires
        b.wf(),
        b.state is Closed,
        b.failure_count + times.len() == b.failure_threshold,
        times.len() >= 1,
    ensures
        spec_record_failures(b, times).state is Open,
        spec_record_failures(b, times).last_open_time == Option::Some(times.last()),
        spec_record_failures(b, times).wf(),
    decreases times.len(),
{
    let b1 = spec_record_failure(b, times[0]);
    if times.len() == 1 {
        assert(spec_record_failures(b1, times.skip(1)) == b1);
    } else {
        lemma_threshold_failures_open(b1, times.skip(1));
        assert(times.skip(1).last() == times.last());
    }
}

/// In probation, the third consecutive success closes the breaker and
/// resets both counters.
pub proof fn lemma_three_successes_close(b: BreakerModel)
    requires
        b.wf(),
        b.state is HalfOpen,
        b.success_count == 0,
    ensures
        spec_record_success(spec_record_success(spec_record_success(b))).state is Closed,
        spec_record_success(spec_record_success(spec_record_success(b))).failure_count == 0,
        spec_record_success(spec_record_success(spec_record_success(b))).success_count == 0,
{
}

/// View of a sequence of packets.
pub open spec fn spec_buffered(v: Seq<TelemetryPacket>) -> Seq<TelemetryPacketModel> {
    v.map_values(|p: TelemetryPacket| p@)
}

/// Bounded FIFO holding packets that could not be delivered, for later
/// retry.  Its view is the sequence of buffered packet models, oldest
/// first, and its length never exceeds the capacity it was created with.
#[derive(Debug)]
pub struct OfflineBuffer {
    packets: Vec<TelemetryPacket>,
    max_size: usize,
}

impl View for OfflineBuffer {
    type V = Seq<TelemetryPacketModel>;

    closed spec fn view(&self) -> Seq<TelemetryPacketModel> {
        spec_buffered(self.packets@)
    }
}

impl OfflineBuffer {
    /// Capacity the buffer was created with.
    pub closed spec fn spec_max_size(&self) -> usize {
        self.max_size
    }

    /// The buffer never holds more than its capacity.
    pub open spec fn wf(&self) -> bool {
        self@.len() <= self.spec_max_size()
    }

    /// A new empty buffer of capacity `max_size`.
    pub fn new(max_size: usize) -> (r: OfflineBuffer)
        ensures
            r@ == Seq::<TelemetryPacketModel>::empty(),
            r.spec_max_size() == max_size,
            r.wf(),
    {
        let r = OfflineBuffer { packets: Vec::new(), max_size };
        proof {
            assert(r@ =~= Seq::<TelemetryPacketModel>::empty());
        }
        r
    }

    /// Capacity the buffer was created with.
    pub fn max_size(&self) -> (r: usize)
        ensures
            r == self.spec_max_size(),
    {
        self.max_size
    }

    /// Append a packet.  A full buffer rejects the packet with
    /// `BufferFull` and is left unchanged; otherwise the packet is stored
    /// at the back.
    pub fn push(&mut self, packet: TelemetryPacket) -> (r: Result<(), ResilienceError>)
        ensures
            final(self).spec_max_size() == old(self).spec_max_size(),
            old(self)@.len() >= old(self).spec_max_size() ==> (r matches Err(
                ResilienceError::BufferFull,
            ) && final(self)@ == old(self)@),
            old(self)@.len() < old(self).spec_max_size() ==> r is Ok && final(self)@ == old(
                self,
            )@.push(packet@),
            old(self).wf() ==> final(self).wf(),
    {
        if self.packets.len() >= self.max_size {
            return Result::Err(ResilienceError::BufferFull);
        }
        self.packets.push(packet);
        proof {
            assert(self@ =~= old(self)@.push(self.packets@.last()@));
        }
        Result::Ok(())
    }

    /// Remove and return the oldest packet, if any.
    pub fn pop(&mut self) -> (r: Option<TelemetryPacket>)
        ensures
            final(self).spec_max_size() == old(self).spec_max_size(),
            old(self)@.len() == 0 ==> r is None && final(self)@ == old(self)@,
            old(self)@.len() > 0 ==> (r matches Some(p) && p@ == old(self)@[0] && final(self)@
                == old(self)@.skip(1)),
            old(self).wf() ==> final(self).wf(),
    {
        if self.packets.is_empty() {
            Option::None
        } else {
            let p = self.packets.remove(0);
            proof {
                assert(self@ =~= old(self)@.skip(1));
            }
            Option::Some(p)
        }
    }

    /// Number of packets currently buffered.
    pub fn len(&self) -> (r: usize)
        ensures
            r == self@.len(),
    {
        self.packets.len()
    }

    /// Remove and return every buffered packet, oldest first, leaving the
    /// buffer empty.
    pub fn drain(&mut self) -> (r: Vec<TelemetryPacket>)
        ensures
            final(self).spec_max_size() == old(self).spec_max_size(),
            spec_buffered(r@) == old(self)@,
            final(self)@.len() == 0,
            final(self).wf(),
    {
        let mut out: Vec<TelemetryPacket> = Vec::new();
        core::mem::swap(&mut out, &mut self.packets);
        proof {
            assert(self@ =~= Seq::<TelemetryPacketModel>::empty());
        }
        out
    }
}

/// Retry policy with exponential backoff.  The policy is pure bookkeeping:
/// the caller performs the attempts and the waiting, this type answers how
/// long the next wait is and whether another attempt is allowed.
#[derive(Debug)]
pub struct RetryStrategy {
    config: ResilienceConfig,
}

impl RetryStrategy {
    /// Configuration of this strategy.
    pub closed spec fn spec_config(&self) -> ResilienceConfig {
        self.config
    }

    /// A new retry strategy.
    pub fn new(config: ResilienceConfig) -> (r: RetryStrategy)
        ensures
            r.spec_config() == config,
    {
        RetryStrategy { config }
    }

    /// Maximum number of attempts the strategy allows.
    pub fn max_attempts(&self) -> (r: u32)
        ensures
            r == self.spec_config().max_retries,
    {
        self.config.max_retries
    }

    /// Backoff to wait before the first retry.
    pub fn initial_backoff_ms(&self) -> (r: u64)
        ensures
            r == self.spec_config().initial_backoff_ms,
    {
        self.config.initial_backoff_ms
    }

    /// Backoff to wait after a wait of `current_ms`: the current wait times
    /// the multiplier, capped at the configured maximum.
    pub fn next_backoff_ms(&self, current_ms: u64) -> (r: u64)
        ensures
            r == if current_ms * self.spec_config().backoff_multiplier > self.spec_config(
            ).max_backoff_ms {
                self.spec_config().max_backoff_ms as int
            } else {
                current_ms * self.spec_config().backoff_multiplier
            },
    {
        match current_ms.checked_mul(self.config.backoff_multiplier) {
            Option::Some(v) => if v > self.config.max_backoff_ms {
                self.config.max_backoff_ms
            } else {
                v
            },
            Option::None => self.config.max_backoff_ms,
        }
    }
}

} // verus!
