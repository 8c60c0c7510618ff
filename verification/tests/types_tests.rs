use telemetry::types::{DiagnosticEntry, DiagnosticLevel, DiagnosticsReport, HealthStatus,
    SensorData, SensorReading, SystemHealth, TelemetryPacket};
use telemetry::wire::{parse_health_at, parse_reading_at, push_health_json, push_reading_json};

#[test]
fn test_system_health_serialization() {
    let mut health = SystemHealth::new();
    health.healthy_components = 5;
    health.degraded_components = 1;
    health.temperature_celsius = 45;
    health.recalculate_status();

    let mut json = String::new();
    push_health_json(&mut json, &health);
    // Status travels upper case on the wire.
    assert!(json.contains("DEGRADED"));

    let (deserialized, _) = parse_health_at(&json, 0).unwrap();
    assert_eq!(deserialized.healthy_components, 5);
    assert_eq!(deserialized.status, HealthStatus::Degraded);
}

#[test]
fn test_sensor_data_variants() {
    let temp = SensorData::Temperature { value: 25, unit: "°C".to_string() };
    assert!(temp.description().contains("Temperature"));

    let gps = SensorData::Gps {
        latitude: 37_774_900,
        longitude: -122_419_400,
        altitude: 100,
        accuracy: 5,
    };
    assert!(gps.description().contains("GPS"));
}

#[test]
fn test_sensor_reading_json() {
    let reading = SensorReading::new(
        "sensor-001".to_string(),
        "Temperature Sensor".to_string(),
        SensorData::Temperature { value: 22, unit: "°C".to_string() },
        1,
    );

    let mut json = String::new();
    push_reading_json(&mut json, &reading);
    let (deserialized, _) = parse_reading_at(&json, 0).unwrap();
    assert_eq!(deserialized.component_id, "sensor-001");
}

#[test]
fn test_diagnostic_entry_builder() {
    let entry = DiagnosticEntry::new(
        DiagnosticLevel::Warning,
        "motor-001".to_string(),
        "Motor temperature rising".to_string(),
    )
    .with_code("TEMP_WARN_001".to_string())
    .with_context("temperature".to_string(), "65°C".to_string());

    assert_eq!(entry.level, DiagnosticLevel::Warning);
    assert_eq!(entry.code, Some("TEMP_WARN_001".to_string()));
    assert!(entry.context.is_some());
}

#[test]
fn test_diagnostics_report() {
    let mut report = DiagnosticsReport::new();
    report.add_entry(DiagnosticEntry::new(
        DiagnosticLevel::Info,
        "sys".to_string(),
        "System started".to_string(),
    ));
    report.add_entry(DiagnosticEntry::new(
        DiagnosticLevel::Warning,
        "sensor".to_string(),
        "Sensor reading delayed".to_string(),
    ));

    assert_eq!(report.total_entries, 2);
    assert_eq!(report.recent_entries.len(), 2);
}

#[test]
fn test_telemetry_packet_roundtrip() {
    let mut packet = TelemetryPacket::new(1);
    packet.health.healthy_components = 10;
    packet.sensor_readings.push(SensorReading::new(
        "gps-001".to_string(),
        "GPS".to_string(),
        SensorData::Gps {
            latitude: 37_774_900,
            longitude: -122_419_400,
            altitude: 50,
            accuracy: 2,
        },
        1,
    ));

    let json = packet.to_json();
    let restored = TelemetryPacket::from_json(&json).unwrap();

    assert_eq!(restored.sequence, 1);
    assert_eq!(restored.health.healthy_components, 10);
    assert_eq!(restored.sensor_readings.len(), 1);
}

#[test]
fn test_telemetry_packet_size() {
    let packet = TelemetryPacket::new(1);
    let size = packet.size_bytes();
    assert!(size > 0);
}

#[test]
fn recalculate_status_prefers_worst() {
    let mut health = SystemHealth::new();
    health.healthy_components = 3;
    health.recalculate_status();
    assert_eq!(health.status, HealthStatus::Healthy);
    health.degraded_components = 1;
    health.recalculate_status();
    assert_eq!(health.status, HealthStatus::Degraded);
    health.failed_components = 1;
    health.recalculate_status();
    assert_eq!(health.status, HealthStatus::Critical);
}

#[test]
fn packet_roundtrip_keeps_escaped_text_and_diagnostics() {
    let mut packet = TelemetryPacket::new(77);
    packet.timestamp = "2024-01-01T00:00:00Z".to_string();
    packet.health.error_message = Some("quote \" and backslash \\ here".to_string());
    let mut entry = DiagnosticEntry::new(
        DiagnosticLevel::Error,
        "driver".to_string(),
        "send \"failed\"".to_string(),
    );
    entry = entry.with_context("attempt".to_string(), "2".to_string());
    packet.diagnostics.add_entry(entry);

    let json = packet.to_json();
    let restored = TelemetryPacket::from_json(&json).unwrap();
    assert_eq!(restored.sequence, 77);
    assert_eq!(restored.timestamp, "2024-01-01T00:00:00Z");
    assert_eq!(
        restored.health.error_message,
        Some("quote \" and backslash \\ here".to_string())
    );
    assert_eq!(restored.diagnostics.total_entries, 1);
    assert_eq!(restored.diagnostics.recent_entries.len(), 1);
    assert_eq!(restored.diagnostics.recent_entries[0].message, "send \"failed\"");
}

#[test]
fn packet_bytes_roundtrip() {
    let mut packet = TelemetryPacket::new(5);
    packet.sensor_readings.push(SensorReading::new(
        "t-1".to_string(),
        "Temp".to_string(),
        SensorData::Temperature { value: -7, unit: "°C".to_string() },
        9,
    ));
    let bytes = packet.to_json_bytes();
    let restored = TelemetryPacket::from_json_bytes(&bytes).unwrap();
    assert_eq!(restored.sequence, 5);
    assert_eq!(restored.sensor_readings.len(), 1);
    match &restored.sensor_readings[0].data {
        SensorData::Temperature { value, unit } => {
            assert_eq!(*value, -7);
            assert_eq!(unit, "°C");
        }
        other => panic!("unexpected variant: {:?}", other),
    }
}

#[test]
fn malformed_text_is_rejected() {
    assert!(TelemetryPacket::from_json("").is_none());
    assert!(TelemetryPacket::from_json("{\"nonsense\":1}").is_none());
    assert!(TelemetryPacket::from_json("{\"sequence\":notanumber").is_none());
}

#[test]
fn status_and_level_labels() {
    assert_eq!(HealthStatus::Critical.label(), "Critical");
    assert_eq!(DiagnosticLevel::Info.label(), "Info");
}

#[test]
fn with_context_replaces_existing_key() {
    let entry = DiagnosticEntry::new(
        DiagnosticLevel::Info,
        "sys".to_string(),
        "calibrating".to_string(),
    )
    .with_context("stage".to_string(), "one".to_string())
    .with_context("sensor".to_string(), "imu".to_string())
    .with_context("stage".to_string(), "two".to_string());

    let ctx = entry.context.unwrap();
    assert_eq!(ctx.len(), 2);
    assert_eq!(ctx[0], ("stage".to_string(), "two".to_string()));
    assert_eq!(ctx[1], ("sensor".to_string(), "imu".to_string()));
}
