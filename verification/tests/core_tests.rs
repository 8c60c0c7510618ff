use telemetry::add;
use telemetry::component::ComponentError;
use telemetry::logger::{Logger, LogLevel};
use telemetry::metrics::Metrics;
use telemetry::models::Entity;
use telemetry::mqtt::MqttConfig;
use telemetry::scheduler::{LoopStats, RealTimeLoop};

#[test]
fn it_works() {
    let result = add(2, 2);
    assert_eq!(result, 4);
}

#[test]
fn test_real_time_loop_creation() {
    let loop_100hz = RealTimeLoop::new(100);
    assert!(loop_100hz.is_ok());

    let loop_invalid = RealTimeLoop::new(0);
    assert!(loop_invalid.is_err());

    let loop_too_high = RealTimeLoop::new(20000);
    assert!(loop_too_high.is_err());
}

#[test]
fn test_loop_stats_utilization() {
    let stats = LoopStats {
        period_ms: 10,
        measured_period_ms: 10,
        execution_time_ms: 5,
        slack_time_ms: 5,
        iteration_count: 0,
    };

    assert_eq!(stats.utilization_percent(), 50);
}

#[test]
fn mqtt_real_test_default_config() {
    let config = MqttConfig::default();
    assert_eq!(config.host, "localhost");
    assert_eq!(config.port, 1883);
    assert_eq!(config.qos, 1);
}

#[test]
fn loop_records_iterations() {
    let mut rt = RealTimeLoop::new(100).unwrap();
    assert_eq!(rt.frequency_hz(), 100);
    rt.record_iteration(4, 10);
    let stats = rt.stats();
    assert_eq!(stats.period_ms, 10);
    assert_eq!(stats.execution_time_ms, 4);
    assert_eq!(stats.slack_time_ms, 6);
    assert_eq!(stats.iteration_count, 1);
}

#[test]
fn metrics_count_by_name() {
    let mut metrics = Metrics::new();
    assert_eq!(metrics.get("sent"), None);
    metrics.increment("sent");
    metrics.increment("sent");
    metrics.increment("dropped");
    assert_eq!(metrics.get("sent"), Some(2));
    assert_eq!(metrics.get("dropped"), Some(1));
    assert_eq!(metrics.get("other"), None);
}

#[test]
fn logger_formats_lines() {
    let logger = Logger::new(LogLevel::Info);
    assert_eq!(logger.format_message(LogLevel::Warning, "low disk"), "[Warning] low disk");
}

#[test]
fn entity_and_component_error() {
    let entity = Entity::new(9, "pump".to_string());
    assert_eq!(entity.id, 9);
    assert_eq!(entity.name, "pump");
    let err = ComponentError::new("offline".to_string());
    assert_eq!(err.message, "offline");
}
