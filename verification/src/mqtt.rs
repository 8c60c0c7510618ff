//! Configuration for a broker-backed transport.  The broker client itself
//! lives outside the library.

use vstd::prelude::*;
use vstd::string::*;

verus! {

/// Configuration for a broker transport.
#[derive(Debug)]
pub struct MqttConfig {
    /// Broker host.
    pub host: String,
    /// Broker port (1883 by default, 8883 for TLS).
    pub port: u16,
    /// Client ID for the connection.
    pub client_id: String,
    /// Topic to publish telemetry to.
    pub topic: String,
    /// QoS level (0, 1, or 2).
    pub qos: u8,
    /// Keep alive interval in seconds.
    pub keep_alive_secs: u64,
    /// Use TLS.
    pub use_tls: bool,
    /// CA certificate path (for TLS).
    pub ca_cert_path: Option<String>,
    /// Client certificate path (for mutual TLS).
    pub client_cert_path: Option<String>,
    /// Client key path (for mutual TLS).
    pub client_key_path: Option<String>,
    /// Maximum reconnection attempts (0 means unbounded).
    pub max_reconnect_attempts: u32,
}

impl Default for MqttConfig {
    fn default() -> (r: MqttConfig)
        ensures
            r.host@ == "localhost"@,
            r.port == 1883,
            r.client_id@ == "rust-telemetry"@,
            r.topic@ == "telemetry/system"@,
            r.qos == 1,
            r.keep_alive_secs == 60,
            r.use_tls == false,
            r.ca_cert_path is None,
            r.client_cert_path is None,
            r.client_key_path is None,
            r.max_reconnect_attempts == 0,
    {
        MqttConfig {
            host: String::from_str("localhost"),
            port: 1883,
            client_id: String::from_str("rust-telemetry"),
            topic: String::from_str("telemetry/system"),
            qos: 1,
            keep_alive_secs: 60,
            use_tls: false,
            ca_cert_path: Option::None,
            client_cert_path: Option::None,
            client_key_path: Option::None,
            max_reconnect_attempts: 0,
        }
    }
}

impl Clone for MqttConfig {
    fn clone(&self) -> (r: MqttConfig)
        ensures
            r.host@ == self.host@,
            r.port == self.port,
            r.qos == self.qos,
    {
        MqttConfig {
            host: self.host.clone(),
            port: self.port,
            client_id: self.client_id.clone(),
            topic: self.topic.clone(),
            qos: self.qos,
            keep_alive_secs: self.keep_alive_secs,
            use_tls: self.use_tls,
            ca_cert_path: match self.ca_cert_path {
                Option::Some(ref p) => Option::Some(p.clone()),
                Option::None => Option::None,
            },
            client_cert_path: match self.client_cert_path {
                Option::Some(ref p) => Option::Some(p.clone()),
                Option::None => Option::None,
            },
            client_key_path: match self.client_key_path {
                Option::Some(ref p) => Option::Some(p.clone()),
                Option::None => Option::None,
            },
            max_reconnect_attempts: self.max_reconnect_attempts,
        }
    }
}

} // verus!
