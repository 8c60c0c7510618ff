//! Device abstraction implementations.

use vstd::prelude::*;
use crate::traits::HalTrait;

verus! {

/// A basic hardware device abstraction.
#[derive(Debug)]
pub struct Device {
    /// The device's name.
    pub name: String,
    initialized: bool,
}

impl Device {
    /// Whether the device has been initialized.
    pub closed spec fn spec_initialized(&self) -> bool {
        self.initialized
    }

    /// The device's name.
    pub closed spec fn spec_name(&self) -> Seq<char> {
        self.name@
    }

    /// A new device, not yet initialized.
    pub fn new(name: String) -> (r: Device)
        ensures
            r.spec_name() == name@,
            !r.spec_initialized(),
    {
        Device { name, initialized: false }
    }
}

impl HalTrait for Device {
    fn initialize(&mut self) -> (r: Result<(), String>)
        ensures
            r is Ok,
            final(self).spec_initialized(),
            final(self).spec_name() == old(self).spec_name(),
    {
        self.initialized = true;
        Result::Ok(())
    }

    fn shutdown(&mut self) -> (r: Result<(), String>)
        ensures
            r is Ok,
            !final(self).spec_initialized(),
            final(self).spec_name() == old(self).spec_name(),
    {
        self.initialized = false;
        Result::Ok(())
    }

    fn health_check(&self) -> (r: Result<bool, String>)
        ensures
            r matches Ok(healthy) && healthy == self.spec_initialized(),
    {
        Result::Ok(self.initialized)
    }
}

} // verus!
