//! Configuration and statistics types for a simulation harness built on
//! top of the pipeline.

use vstd::prelude::*;
use vstd::string::*;

verus! {

/// Configuration for a simulation engine.
#[derive(Debug)]
pub struct SimulationConfig {
    /// Simulation name/identifier.
    pub name: String,
    /// Control loop frequency (Hz).
    pub control_loop_hz: u32,
    /// Enable telemetry collection.
    pub enable_telemetry: bool,
    /// Enable real-time scheduling (if supported).
    pub enable_realtime: bool,
    /// Timeout for operations (seconds).
    pub timeout_secs: u64,
}

impl Default for SimulationConfig {
    fn default() -> (r: SimulationConfig)
        ensures
            r.name@ == "default_simulation"@,
            r.control_loop_hz == 50,
            r.enable_telemetry == true,
            r.enable_realtime == false,
            r.timeout_secs == 30,
    {
        SimulationConfig {
            name: String::from_str("default_simulation"),
            control_loop_hz: 50,
            enable_telemetry: true,
            enable_realtime: false,
            timeout_secs: 30,
        }
    }
}

impl Clone for SimulationConfig {
    fn clone(&self) -> (r: SimulationConfig)
        ensures
            r.name@ == self.name@,
            r.control_loop_hz == self.control_loop_hz,
            r.enable_telemetry == self.enable_telemetry,
            r.enable_realtime == self.enable_realtime,
            r.timeout_secs == self.timeout_secs,
    {
        SimulationConfig {
            name: self.name.clone(),
            control_loop_hz: self.control_loop_hz,
            enable_telemetry: self.enable_telemetry,
            enable_realtime: self.enable_realtime,
            timeout_secs: self.timeout_secs,
        }
    }
}

/// Statistics about one component.
#[derive(Debug)]
pub struct ComponentStats {
    /// Unique identifier.
    pub id: String,
    /// Human-readable name.
    pub name: String,
    /// Iterations completed.
    pub iterations: u64,
    /// Errors observed.
    pub errors: u64,
    /// Last update, as already-formatted text.
    pub last_update: String,
}

impl Clone for ComponentStats {
    fn clone(&self) -> (r: ComponentStats)
        ensures
            r.id@ == self.id@,
            r.name@ == self.name@,
            r.iterations == self.iterations,
            r.errors == self.errors,
            r.last_update@ == self.last_update@,
    {
        ComponentStats {
            id: self.id.clone(),
            name: self.name.clone(),
            iterations: self.iterations,
            errors: self.errors,
            last_update: self.last_update.clone(),
        }
    }
}

} // verus!
