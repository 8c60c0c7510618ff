use telemetry::resilience::{CircuitBreaker, CircuitState, OfflineBuffer, ResilienceConfig,
    ResilienceError, RetryStrategy};
use telemetry::types::TelemetryPacket;

#[test]
fn test_circuit_breaker_transitions() {
    let mut breaker = CircuitBreaker::new(3, 1);
    assert_eq!(breaker.state(), CircuitState::Closed);

    // Record 3 failures at time zero.
    for _ in 0..3 {
        breaker.record_failure(0);
    }
    assert_eq!(breaker.state(), CircuitState::Open);

    // Transition to half-open after the timeout.
    breaker.try_half_open(2000);
    assert_eq!(breaker.state(), CircuitState::HalfOpen);

    // Record 3 successes to close.
    for _ in 0..3 {
        breaker.record_success();
    }
    assert_eq!(breaker.state(), CircuitState::Closed);
}

#[test]
fn test_offline_buffer() {
    let mut buffer = OfflineBuffer::new(3);
    let packet = TelemetryPacket::new(1);

    assert!(buffer.push(packet.clone()).is_ok());
    assert_eq!(buffer.len(), 1);

    let popped = buffer.pop();
    assert!(popped.is_some());
    assert_eq!(buffer.len(), 0);
}

#[test]
fn test_default_resilience_config() {
    let config = ResilienceConfig::default();
    assert_eq!(config.max_retries, 3);
    assert_eq!(config.failure_threshold, 5);
    assert_eq!(config.buffer_size, 1000);
}

#[test]
fn breaker_stays_closed_below_threshold() {
    let mut breaker = CircuitBreaker::new(5, 30);
    for t in 0..4 {
        breaker.record_failure(t);
        assert_eq!(breaker.state(), CircuitState::Closed);
    }
    assert_eq!(breaker.failure_count(), 4);
    // A success in the closed state forgets the streak.
    breaker.record_success();
    assert_eq!(breaker.failure_count(), 0);
}

#[test]
fn breaker_half_open_failure_reopens() {
    let mut breaker = CircuitBreaker::new(2, 1);
    breaker.record_failure(0);
    breaker.record_failure(1);
    assert_eq!(breaker.state(), CircuitState::Open);
    // Before the timeout nothing happens.
    breaker.try_half_open(500);
    assert_eq!(breaker.state(), CircuitState::Open);
    breaker.try_half_open(1500);
    assert_eq!(breaker.state(), CircuitState::HalfOpen);
    // A partial success streak is wiped by one failure.
    breaker.record_success();
    breaker.record_failure(1600);
    assert_eq!(breaker.state(), CircuitState::Open);
    // Probation starts over from the new opening time.
    breaker.try_half_open(1700);
    assert_eq!(breaker.state(), CircuitState::Open);
    breaker.try_half_open(2700);
    assert_eq!(breaker.state(), CircuitState::HalfOpen);
}

#[test]
fn buffer_full_rejects_and_keeps_length() {
    let mut buffer = OfflineBuffer::new(2);
    assert!(buffer.push(TelemetryPacket::new(1)).is_ok());
    assert!(buffer.push(TelemetryPacket::new(2)).is_ok());
    let rejected = buffer.push(TelemetryPacket::new(3));
    assert!(matches!(rejected, Err(ResilienceError::BufferFull)));
    assert_eq!(buffer.len(), 2);
}

#[test]
fn buffer_drains_in_push_order() {
    let mut buffer = OfflineBuffer::new(10);
    for seq in [4u64, 7, 9] {
        buffer.push(TelemetryPacket::new(seq)).unwrap();
    }
    let drained = buffer.drain();
    assert_eq!(buffer.len(), 0);
    let sequences: Vec<u64> = drained.iter().map(|p| p.sequence).collect();
    assert_eq!(sequences, vec![4, 7, 9]);
}

#[test]
fn retry_backoff_doubles_up_to_cap() {
    let strategy = RetryStrategy::new(ResilienceConfig::default());
    assert_eq!(strategy.max_attempts(), 3);
    assert_eq!(strategy.initial_backoff_ms(), 100);
    assert_eq!(strategy.next_backoff_ms(100), 200);
    assert_eq!(strategy.next_backoff_ms(200), 400);
    assert_eq!(strategy.next_backoff_ms(6000), 10000);
    assert_eq!(strategy.next_backoff_ms(u64::MAX), 10000);
}
