//! Hardware abstraction trait definitions.

use vstd::prelude::*;

verus! {

/// Core trait for hardware abstraction.
pub trait HalTrait {
    /// Bring the hardware up.
    fn initialize(&mut self) -> Result<(), String>;

    /// Bring the hardware down.
    fn shutdown(&mut self) -> Result<(), String>;

    /// Whether the hardware is healthy.
    fn health_check(&self) -> Result<bool, String>;
}

} // verus!
