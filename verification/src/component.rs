//! Component lifecycle support types.

use vstd::prelude::*;

verus! {

/// Error type for component operations.
#[derive(Debug)]
pub struct ComponentError {
    /// What went wrong.
    pub message: String,
}

impl ComponentError {
    /// A new component error with the given message.
    pub fn new(message: String) -> (r: ComponentError)
        ensures
            r.message@ == message@,
    {
        ComponentError { message }
    }
}

impl Clone for ComponentError {
    fn clone(&self) -> (r: ComponentError)
        ensures
            r.message@ == self.message@,
    {
        ComponentError { message: self.message.clone() }
    }
}

/// Result type for component operations.
pub type ComponentResult<T> = Result<T, ComponentError>;

} // verus!
