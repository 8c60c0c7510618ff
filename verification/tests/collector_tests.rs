use telemetry::collector::TelemetryCollector;
use telemetry::types::{DiagnosticEntry, DiagnosticLevel, SensorData, SensorReading, SystemHealth};

#[test]
fn test_collector_record_reading() {
    let mut collector = TelemetryCollector::new();
    let reading = SensorReading::new(
        "test-01".to_string(),
        "Test Sensor".to_string(),
        SensorData::Temperature { value: 25, unit: "°C".to_string() },
        1,
    );

    collector.record_sensor_reading(reading.clone());
    let readings = collector.get_sensor_readings(10);
    assert_eq!(readings.len(), 1);
    assert_eq!(readings[0].component_id, "test-01");
}

#[test]
fn test_collector_diagnostic() {
    let mut collector = TelemetryCollector::new();
    let entry = DiagnosticEntry::new(
        DiagnosticLevel::Info,
        "sys".to_string(),
        "Test event".to_string(),
    );

    collector.record_diagnostic(entry);
    let packet = collector.generate_packet("t0".to_string());
    assert_eq!(packet.diagnostics.total_entries, 1);
}

#[test]
fn test_collector_packet_generation() {
    let mut collector = TelemetryCollector::new();

    let mut health = SystemHealth::new();
    health.healthy_components = 3;
    collector.update_health(health);

    let packet = collector.generate_packet("t0".to_string());
    assert_eq!(packet.sequence, 1);
    assert_eq!(packet.health.healthy_components, 3);
}

#[test]
fn test_collector_sequence_increment() {
    let mut collector = TelemetryCollector::new();
    let p1 = collector.generate_packet("t1".to_string());
    let p2 = collector.generate_packet("t2".to_string());
    assert_eq!(p1.sequence, 1);
    assert_eq!(p2.sequence, 2);
}

#[test]
fn collector_returns_newest_readings_first() {
    let mut collector = TelemetryCollector::new();
    for seq in 0..5u64 {
        collector.record_sensor_reading(SensorReading::new(
            format!("s-{}", seq),
            "S".to_string(),
            SensorData::Digital { state: true, label: "on".to_string() },
            seq,
        ));
    }
    let newest = collector.get_sensor_readings(2);
    assert_eq!(newest.len(), 2);
    assert_eq!(newest[0].sequence, 4);
    assert_eq!(newest[1].sequence, 3);
    collector.clear();
    assert!(collector.get_sensor_readings(10).is_empty());
}
