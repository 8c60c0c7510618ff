//! Configuration for the telemetry system.
//!
//! Files and environment variables are read outside the library; the
//! merge rules (which text overrides which knob, and when malformed text
//! is ignored) are checked here.

use vstd::prelude::*;
use vstd::string::*;
use crate::resilience::ResilienceConfig;
use crate::streaming::PipelineConfig;
use crate::text::{spec_parse_u64, parse_u64_at};

verus! {

/// Configuration error types.
#[derive(Debug)]
pub enum ConfigError {
    /// No configuration file was found; the message names what was tried.
    FileNotFound(String),
    /// A file failed to parse, with the failure message.
    ParseError(String),
    /// The configuration is invalid, with the reason.
    Invalid(String),
    /// An I/O failure, with its message.
    Io(String),
}

/// Default application name.
pub fn default_app_name() -> (r: String)
    ensures
        r@ == "rust-telemetry"@,
{
    String::from_str("rust-telemetry")
}

/// Default log level.
pub fn default_log_level() -> (r: String)
    ensures
        r@ == "info"@,
{
    String::from_str("info")
}

/// Complete telemetry system configuration.
#[derive(Debug)]
pub struct TelemetryConfig {
    /// Pipeline configuration.
    pub pipeline: PipelineConfig,
    /// Resilience configuration.
    pub resilience: ResilienceConfig,
    /// Application name.
    pub app_name: String,
    /// Log level (trace, debug, info, warn, error).
    pub log_level: String,
}

impl Default for TelemetryConfig {
    fn default() -> (r: TelemetryConfig)
        ensures
            r.pipeline == (PipelineConfig {
                batch_size: 10usize,
                batch_timeout_secs: 5u64,
                enable_compression: true,
                channel_capacity: 256usize,
                enable_resilience: true,
            }),
            r.resilience == (ResilienceConfig {
                max_retries: 3u32,
                initial_backoff_ms: 100u64,
                max_backoff_ms: 10000u64,
                backoff_multiplier: 2u64,
                failure_threshold: 5u32,
                half_open_timeout_secs: 30u64,
                buffer_size: 1000usize,
            }),
            r.app_name@ == "rust-telemetry"@,
            r.log_level@ == "info"@,
    {
        TelemetryConfig {
            pipeline: PipelineConfig::default(),
            resilience: ResilienceConfig::default(),
            app_name: default_app_name(),
            log_level: default_log_level(),
        }
    }
}

impl Clone for TelemetryConfig {
    fn clone(&self) -> (r: TelemetryConfig)
        ensures
            r.pipeline == self.pipeline,
            r.resilience == self.resilience,
            r.app_name@ == self.app_name@,
            r.log_level@ == self.log_level@,
    {
        TelemetryConfig {
            pipeline: self.pipeline,
            resilience: self.resilience,
            app_name: self.app_name.clone(),
            log_level: self.log_level.clone(),
        }
    }
}

/// Configuration loader: holds the directories to search, in order of
/// precedence.  The file reading itself happens outside the library.
#[derive(Debug)]
pub struct ConfigLoader {
    config_dirs: Vec<String>,
}

/// View of the search directories.
pub open spec fn spec_dirs(v: Seq<String>) -> Seq<Seq<char>> {
    v.map_values(|s: String| s@)
}

impl ConfigLoader {
    /// The directories searched, in order.
    pub closed spec fn spec_config_dirs(&self) -> Seq<Seq<char>> {
        spec_dirs(self.config_dirs@)
    }

    /// A new loader searching `config`, the working directory, and the
    /// system-wide directory, in that order.
    pub fn new() -> (r: ConfigLoader)
        ensures
            r.spec_config_dirs() == seq!["config"@, "."@, "/etc/telemetry"@],
    {
        let mut config_dirs: Vec<String> = Vec::new();
        config_dirs.push(String::from_str("config"));
        config_dirs.push(String::from_str("."));
        config_dirs.push(String::from_str("/etc/telemetry"));
        let r = ConfigLoader { config_dirs };
        proof {
            assert(r.spec_config_dirs() =~= seq!["config"@, "."@, "/etc/telemetry"@]);
        }
        r
    }

    /// Add a configuration directory to search first.
    pub fn with_config_dir(self, path: String) -> (r: ConfigLoader)
        ensures
            r.spec_config_dirs() == seq![path@] + self.spec_config_dirs(),
    {
        let ghost d0 = self.spec_config_dirs();
        let mut config_dirs = self.config_dirs;
        config_dirs.insert(0, path);
        let r = ConfigLoader { config_dirs };
        proof {
            assert(r.spec_config_dirs() =~= seq![r.config_dirs@[0]@] + d0);
        }
        r
    }

    /// The directories searched, in order.
    pub fn config_dirs(&self) -> (r: &Vec<String>)
        ensures
            spec_dirs(r@) == self.spec_config_dirs(),
    {
        &self.config_dirs
    }
}

impl Default for ConfigLoader {
    fn default() -> (r: ConfigLoader)
        ensures
            r.spec_config_dirs() == seq!["config"@, "."@, "/etc/telemetry"@],
    {
        ConfigLoader::new()
    }
}

/// Raw override texts, one per supported knob; read from the environment
/// by the caller.
#[derive(Debug, Default)]
pub struct ConfigOverrides {
    /// Override for the pipeline batch size.
    pub batch_size: Option<String>,
    /// Override for the pipeline batch timeout, in seconds.
    pub batch_timeout_secs: Option<String>,
    /// Override for the compression switch.
    pub enable_compression: Option<String>,
    /// Override for the resilience switch.
    pub enable_resilience: Option<String>,
    /// Override for the channel capacity.
    pub channel_capacity: Option<String>,
    /// Override for the maximum retries.
    pub max_retries: Option<String>,
    /// Override for the breaker failure threshold.
    pub failure_threshold: Option<String>,
    /// Override for the offline buffer size.
    pub buffer_size: Option<String>,
    /// Override for the application name.
    pub app_name: Option<String>,
    /// Override for the log level.
    pub log_level: Option<String>,
}

/// The whole text as an unsigned number, if it is one.
pub open spec fn spec_parse_full_u64(s: Seq<char>) -> Option<u64> {
    match spec_parse_u64(s) {
        Option::Some(p) => if p.1.len() == 0 {
            Option::Some(p.0)
        } else {
            Option::None
        },
        Option::None => Option::None,
    }
}

/// Case-insensitive `true`.
pub open spec fn spec_is_true_text(s: Seq<char>) -> bool {
    s.len() == 4 && (s[0] == 't' || s[0] == 'T') && (s[1] == 'r' || s[1] == 'R') && (s[2] == 'u'
        || s[2] == 'U') && (s[3] == 'e' || s[3] == 'E')
}

/// An unsigned override applied to a current value: malformed or missing
/// text leaves the value alone.
pub open spec fn spec_u64_override(cur: u64, o: Option<Seq<char>>, max: u64) -> u64 {
    match o {
        Option::Some(t) => match spec_parse_full_u64(t) {
            Option::Some(v) => if v <= max {
                v
            } else {
                cur
            },
            Option::None => cur,
        },
        Option::None => cur,
    }
}

/// A boolean override applied to a current value: present text sets the
/// switch to whether it reads `true` (in any case).
pub open spec fn spec_bool_override(cur: bool, o: Option<Seq<char>>) -> bool {
    match o {
        Option::Some(t) => spec_is_true_text(t),
        Option::None => cur,
    }
}

/// Parse the whole text as a number no larger than `max`.
fn parse_bounded(s: &str, max: u64) -> (r: Option<u64>)
    ensures
        r == match spec_parse_full_u64(s@) {
            Option::Some(v) => if v <= max {
                Option::Some(v)
            } else {
                Option::<u64>::None
            },
            Option::None => Option::<u64>::None,
        },
{
    proof {
        assert(s@.skip(0) =~= s@);
    }
    match parse_u64_at(s, 0) {
        Option::Some((v, e)) => {
            let len = s.unicode_len();
            if e == len && v <= max {
                proof {
                    assert(s@.skip(e as int).len() == 0);
                }
                Option::Some(v)
            } else {
                proof {
                    if e < len {
                        assert(s@.skip(e as int).len() > 0);
                    }
                }
                Option::None
            }
        },
        Option::None => Option::None,
    }
}

/// Whether the text reads `true`, in any letter case.
fn is_true_text(s: &str) -> (r: bool)
    ensures
        r == spec_is_true_text(s@),
{
    let len = s.unicode_len();
    if len != 4 {
        return false;
    }
    let c0 = s.get_char(0);
    let c1 = s.get_char(1);
    let c2 = s.get_char(2);
    let c3 = s.get_char(3);
    (c0 == 't' || c0 == 'T') && (c1 == 'r' || c1 == 'R') && (c2 == 'u' || c2 == 'U') && (c3 == 'e'
        || c3 == 'E')
}

/// Apply override texts to a configuration, knob by knob: numeric knobs
/// take a value only from text that is entirely a number in range,
/// boolean knobs read case-insensitive `true`, and the name and log level
/// are taken verbatim.
#[verifier::rlimit(100)]
pub fn apply_overrides(config: TelemetryConfig, o: &ConfigOverrides) -> (r: TelemetryConfig)
    ensures
        r.pipeline.batch_size == spec_u64_override(
            config.pipeline.batch_size as u64,
            match o.batch_size {
                Option::Some(ref t) => Option::Some(t@),
                Option::None => Option::None,
            },
            usize::MAX as u64,
        ),
        r.pipeline.batch_timeout_secs == spec_u64_override(
            config.pipeline.batch_timeout_secs,
            match o.batch_timeout_secs {
                Option::Some(ref t) => Option::Some(t@),
                Option::None => Option::None,
            },
            u64::MAX,
        ),
        r.pipeline.enable_compression == spec_bool_override(
            config.pipeline.enable_compression,
            match o.enable_compression {
                Option::Some(ref t) => Option::Some(t@),
                Option::None => Option::None,
            },
        ),
        r.pipeline.enable_resilience == spec_bool_override(
            config.pipeline.enable_resilience,
            match o.enable_resilience {
                Option::Some(ref t) => Option::Some(t@),
                Option::None => Option::None,
            },
        ),
        r.pipeline.channel_capacity == spec_u64_override(
            config.pipeline.channel_capacity as u64,
            match o.channel_capacity {
                Option::Some(ref t) => Option::Some(t@),
                Option::None => Option::None,
            },
            usize::MAX as u64,
        ),
        r.resilience.max_retries == spec_u64_override(
            config.resilience.max_retries as u64,
            match o.max_retries {
                Option::Some(ref t) => Option::Some(t@),
                Option::None => Option::None,
            },
            u32::MAX as u64,
        ),
        r.resilience.failure_threshold == spec_u64_override(
            config.resilience.failure_threshold as u64,
            match o.failure_threshold {
                Option::Some(ref t) => Option::Some(t@),
                Option::None => Option::None,
            },
            u32::MAX as u64,
        ),
        r.resilience.buffer_size == spec_u64_override(
            config.resilience.buffer_size as u64,
            match o.buffer_size {
                Option::Some(ref t) => Option::Some(t@),
                Option::None => Option::None,
            },
            usize::MAX as u64,
        ),
        r.app_name@ == match o.app_name {
            Option::Some(ref t) => t@,
            Option::None => config.app_name@,
        },
        r.log_level@ == match o.log_level {
            Option::Some(ref t) => t@,
            Option::None => config.log_level@,
        },
        r.resilience.initial_backoff_ms == config.resilience.initial_backoff_ms,
        r.resilience.max_backoff_ms == config.resilience.max_backoff_ms,
        r.resilience.backoff_multiplier == config.resilience.backoff_multiplier,
        r.resilience.half_open_timeout_secs == config.resilience.half_open_timeout_secs,
{
    let mut out = config;
    match &o.batch_size {
        Option::Some(t) => {
            match parse_bounded(t.as_str(), usize::MAX as u64) {
                Option::Some(v) => {
                    out.pipeline.batch_size = v as usize;
                },
                Option::None => {},
            }
        },
        Option::None => {},
    }
    match &o.batch_timeout_secs {
        Option::Some(t) => {
            match parse_bounded(t.as_str(), u64::MAX) {
                Option::Some(v) => {
                    out.pipeline.batch_timeout_secs = v;
                },
                Option::None => {},
            }
        },
        Option::None => {},
    }
    match &o.enable_compression {
        Option::Some(t) => {
            out.pipeline.enable_compression = is_true_text(t.as_str());
        },
        Option::None => {},
    }
    match &o.enable_resilience {
        Option::Some(t) => {
            out.pipeline.enable_resilience = is_true_text(t.as_str());
        },
        Option::None => {},
    }
    match &o.channel_capacity {
        Option::Some(t) => {
            match parse_bounded(t.as_str(), usize::MAX as u64) {
                Option::Some(v) => {
                    out.pipeline.channel_capacity = v as usize;
                },
                Option::None => {},
            }
        },
        Option::None => {},
    }
    match &o.max_retries {
        Option::Some(t) => {
            match parse_bounded(t.as_str(), u32::MAX as u64) {
                Option::Some(v) => {
                    out.resilience.max_retries = v as u32;
                },
                Option::None => {},
            }
        },
        Option::None => {},
    }
    match &o.failure_threshold {
        Option::Some(t) => {
            match parse_bounded(t.as_str(), u32::MAX as u64) {
                Option::Some(v) => {
                    out.resilience.failure_threshold = v as u32;
                },
                Option::None => {},
            }
        },
        Option::None => {},
    }
    match &o.buffer_size {
        Option::Some(t) => {
            match parse_bounded(t.as_str(), usize::MAX as u64) {
                Option::Some(v) => {
                    out.resilience.buffer_size = v as usize;
                },
                Option::None => {},
            }
        },
        Option::None => {},
    }
    match &o.app_name {
        Option::Some(t) => {
            out.app_name = t.clone();
        },
        Option::None => {},
    }
    match &o.log_level {
        Option::Some(t) => {
            out.log_level = t.clone();
        },
        Option::None => {},
    }
    out
}

} // verus!
