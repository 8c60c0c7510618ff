use telemetry::config::{apply_overrides, ConfigLoader, ConfigOverrides, TelemetryConfig};

#[test]
fn config_test_default_config() {
    let config = TelemetryConfig::default();
    assert_eq!(config.app_name, "rust-telemetry");
    assert_eq!(config.log_level, "info");
    assert!(config.pipeline.enable_resilience);
}

#[test]
fn test_config_loader_creation() {
    let loader = ConfigLoader::new();
    assert!(!loader.config_dirs().is_empty());
}

#[test]
fn test_config_with_custom_dir() {
    let loader = ConfigLoader::new().with_config_dir("/custom/path".to_string());
    assert_eq!(loader.config_dirs()[0], "/custom/path");
}

#[test]
fn overrides_apply_only_well_formed_text() {
    let mut overrides = ConfigOverrides::default();
    overrides.batch_size = Some("32".to_string());
    overrides.enable_compression = Some("TRUE".to_string());
    overrides.enable_resilience = Some("no".to_string());
    overrides.failure_threshold = Some("not-a-number".to_string());
    overrides.app_name = Some("edge-node".to_string());

    let merged = apply_overrides(TelemetryConfig::default(), &overrides);
    assert_eq!(merged.pipeline.batch_size, 32);
    assert!(merged.pipeline.enable_compression);
    assert!(!merged.pipeline.enable_resilience);
    // Malformed numeric text leaves the knob at its default.
    assert_eq!(merged.resilience.failure_threshold, 5);
    assert_eq!(merged.app_name, "edge-node");
    assert_eq!(merged.log_level, "info");
}
