[package]
name = "telemetry"
version = "0.1.0"
edition = "2021"
publish = false

[dependencies]
flate2 = "*"
serde = { version = "*", features = ["derive"] }
serde_json = "*"
serde_yaml = "*"
toml = "*"
chrono = { version = "*", features = ["serde"] }
tokio = { version = "*", features = ["rt-multi-thread", "sync", "time", "fs", "macros", "io-util"] }
tokio-util = "*"
futures = "*"
async-trait = "*"
