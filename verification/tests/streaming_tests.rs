use telemetry::resilience::CircuitState;
use telemetry::streaming::{aggregate_batch, BatchAccumulator, CompressedBatch, PipelineConfig,
    PipelineDriver};
use telemetry::types::{SensorData, SensorReading, TelemetryPacket};

fn packet_with_reading(sequence: u64, id: &str) -> TelemetryPacket {
    let mut packet = TelemetryPacket::new(sequence);
    packet.sensor_readings.push(SensorReading::new(
        id.to_string(),
        id.to_string(),
        SensorData::Analog { value: 1, unit: "V".to_string() },
        sequence,
    ));
    packet
}

#[test]
fn test_compression_ratio() {
    let batch = CompressedBatch {
        packet_count: 10,
        compressed_size: 500,
        uncompressed_size: 1000,
        created_at: String::new(),
    };

    let ratio = batch.compression_ratio_permille() as f32 / 1000.0;
    assert!((ratio - 0.5).abs() < 0.01);
}

#[test]
fn compression_ratio_of_empty_input_is_one() {
    let batch = CompressedBatch {
        packet_count: 0,
        compressed_size: 0,
        uncompressed_size: 0,
        created_at: String::new(),
    };
    assert_eq!(batch.compression_ratio_permille(), 1000);
}

#[test]
fn batch_flushes_exactly_at_size() {
    let mut acc = BatchAccumulator::new(4);
    for seq in 0..3u64 {
        assert!(acc.offer(TelemetryPacket::new(seq)).is_none());
    }
    assert_eq!(acc.len(), 3);
    let flushed = acc.offer(TelemetryPacket::new(3)).unwrap();
    assert_eq!(flushed.len(), 4);
    let sequences: Vec<u64> = flushed.iter().map(|p| p.sequence).collect();
    assert_eq!(sequences, vec![0, 1, 2, 3]);
    assert_eq!(acc.len(), 0);
}

#[test]
fn partial_batch_flushes_on_timeout() {
    let mut acc = BatchAccumulator::new(10);
    assert!(acc.offer(TelemetryPacket::new(1)).is_none());
    assert!(acc.offer(TelemetryPacket::new(2)).is_none());
    let partial = acc.take_batch().unwrap();
    assert_eq!(partial.len(), 2);
    assert_eq!(acc.len(), 0);
    assert!(acc.take_batch().is_none());
}

#[test]
fn two_packets_one_dispatch_with_aggregate() {
    // One sink that always succeeds, batches of two, no resilience.
    let config = PipelineConfig {
        batch_size: 2,
        batch_timeout_secs: 5,
        enable_compression: false,
        channel_capacity: 256,
        enable_resilience: false,
    };
    let mut driver = PipelineDriver::new(config);
    let mut sink_calls: usize = 0;

    assert!(driver.offer(packet_with_reading(10, "a")).is_none());
    let batch = driver.offer(packet_with_reading(11, "b")).unwrap();
    assert_eq!(batch.len(), 2);

    assert!(driver.gate_batch(&batch, 0));
    let aggregate = aggregate_batch(&batch, "2024-01-01T00:00:00Z".to_string());
    sink_calls += 1;
    let (all_ok, replay) = driver.record_outcomes(&batch, &vec![true], 0);

    assert_eq!(sink_calls, 1);
    assert!(all_ok);
    assert!(replay.is_empty());
    assert_eq!(aggregate.sequence, 10);
    assert_eq!(aggregate.sensor_readings.len(), 2);
    assert_eq!(aggregate.sensor_readings[0].component_id, "a");
    assert_eq!(aggregate.sensor_readings[1].component_id, "b");
}

#[test]
fn breaker_opens_and_sheds_load() {
    // Sole sink fails on every call; the default breaker opens after 5
    // failures, after which no dispatch is attempted until the timeout.
    let config = PipelineConfig {
        batch_size: 2,
        batch_timeout_secs: 5,
        enable_compression: false,
        channel_capacity: 256,
        enable_resilience: true,
    };
    let mut driver = PipelineDriver::new(config);
    let mut sink_calls: usize = 0;
    let mut buffered_packets: usize = 0;

    for round in 0..5u64 {
        let first = driver.offer(packet_with_reading(round * 2, "x"));
        assert!(first.is_none());
        let batch = driver.offer(packet_with_reading(round * 2 + 1, "x")).unwrap();
        assert!(driver.gate_batch(&batch, 0));
        sink_calls += 1;
        let (all_ok, replay) = driver.record_outcomes(&batch, &vec![false], 0);
        assert!(!all_ok);
        assert!(replay.is_empty());
        buffered_packets += batch.len();
        assert_eq!(driver.buffer_len(), buffered_packets);
    }
    assert_eq!(driver.breaker_state(), Some(CircuitState::Open));
    assert_eq!(sink_calls, 5);

    // While open, batches are diverted to the buffer and the sink call
    // count stays flat.
    for round in 0..3u64 {
        driver.offer(packet_with_reading(100 + round * 2, "x"));
        let batch = driver.offer(packet_with_reading(101 + round * 2, "x")).unwrap();
        assert!(!driver.gate_batch(&batch, 1000));
        buffered_packets += batch.len();
        assert_eq!(driver.buffer_len(), buffered_packets);
    }
    assert_eq!(sink_calls, 5);
    assert_eq!(driver.buffer_len(), 16);

    // Once the half-open timeout passes, the next check allows a trial.
    driver.offer(packet_with_reading(200, "x"));
    let batch = driver.offer(packet_with_reading(201, "x")).unwrap();
    assert!(driver.gate_batch(&batch, 31_000));
    assert_eq!(driver.breaker_state(), Some(CircuitState::HalfOpen));
}

#[test]
fn successful_batch_drains_buffer_for_replay() {
    let config = PipelineConfig {
        batch_size: 1,
        batch_timeout_secs: 5,
        enable_compression: false,
        channel_capacity: 256,
        enable_resilience: true,
    };
    let mut driver = PipelineDriver::new(config);

    let failing = driver.offer(packet_with_reading(1, "x")).unwrap();
    assert!(driver.gate_batch(&failing, 0));
    driver.record_outcomes(&failing, &vec![false], 0);
    assert_eq!(driver.buffer_len(), 1);

    let fine = driver.offer(packet_with_reading(2, "x")).unwrap();
    assert!(driver.gate_batch(&fine, 0));
    let (all_ok, replay) = driver.record_outcomes(&fine, &vec![true], 0);
    assert!(all_ok);
    assert_eq!(replay.len(), 1);
    assert_eq!(replay[0].sequence, 1);
    assert_eq!(driver.buffer_len(), 0);
}

#[test]
fn gzip_payload_is_compressed() {
    let config = PipelineConfig {
        batch_size: 3,
        batch_timeout_secs: 5,
        enable_compression: true,
        channel_capacity: 256,
        enable_resilience: false,
    };
    let driver = PipelineDriver::new(config);
    let batch = vec![
        packet_with_reading(1, "alpha"),
        packet_with_reading(2, "alpha"),
        packet_with_reading(3, "alpha"),
    ];
    let (payload, meta) = driver
        .make_payload(&batch, "2024-01-01T00:00:00Z".to_string())
        .unwrap();
    // The gzip container starts with its fixed magic bytes, so the
    // payload cannot be the raw text handed back unchanged.
    assert_eq!(payload[0], 0x1f);
    assert_eq!(payload[1], 0x8b);
    assert_eq!(meta.packet_count, 3);
    assert_eq!(meta.compressed_size, payload.len());
    assert!(meta.uncompressed_size > 0);
    assert!(meta.compressed_size < meta.uncompressed_size);
}

#[test]
fn uncompressed_payload_is_the_batch_text() {
    let config = PipelineConfig {
        batch_size: 1,
        batch_timeout_secs: 5,
        enable_compression: false,
        channel_capacity: 256,
        enable_resilience: false,
    };
    let driver = PipelineDriver::new(config);
    let batch = vec![packet_with_reading(9, "s")];
    let (payload, meta) = driver
        .make_payload(&batch, "t".to_string())
        .unwrap();
    assert_eq!(payload.len(), meta.uncompressed_size);
    assert_eq!(payload[0], b'[');
    assert_eq!(*payload.last().unwrap(), b']');
}

#[test]
fn aggregate_of_empty_batch_is_fresh() {
    let aggregate = aggregate_batch(&Vec::new(), "t".to_string());
    assert_eq!(aggregate.sequence, 0);
    assert!(aggregate.sensor_readings.is_empty());
    assert_eq!(aggregate.diagnostics.total_entries, 0);
}

#[test]
fn pipeline_default_config() {
    let config = PipelineConfig::default();
    assert_eq!(config.batch_size, 10);
    assert_eq!(config.batch_timeout_secs, 5);
    assert!(config.enable_compression);
    assert_eq!(config.channel_capacity, 256);
    assert!(config.enable_resilience);
}

#[test]
fn failed_dispatch_buffers_batch_once_per_batch() {
    // Two sinks fail on the same dispatch: the breaker counts two
    // failures, but the batch is buffered once.
    let config = PipelineConfig {
        batch_size: 1,
        batch_timeout_secs: 5,
        enable_compression: false,
        channel_capacity: 256,
        enable_resilience: true,
    };
    let mut driver = PipelineDriver::new(config);

    for round in 0..3u64 {
        let batch = driver.offer(packet_with_reading(round, "x")).unwrap();
        // The breaker reaches its threshold only during the last round's
        // bookkeeping, so every dispatch here is still allowed.
        assert!(driver.gate_batch(&batch, 0));
        let (all_ok, _) = driver.record_outcomes(&batch, &vec![false, false], 0);
        assert!(!all_ok);
        assert_eq!(driver.buffer_len(), (round + 1) as usize);
    }
    // Three two-failure dispatches pass the default threshold of five.
    assert_eq!(driver.breaker_state(), Some(CircuitState::Open));
    assert_eq!(driver.buffer_len(), 3);
}
