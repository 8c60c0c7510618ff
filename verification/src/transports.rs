//! Transport-facing error type.  The concrete transports (broker client,
//! serial link) live outside the library; the pipeline only depends on the
//! outcome of a send, which this type describes.

use vstd::prelude::*;

verus! {

/// Error produced by one transport send attempt.
#[derive(Debug)]
pub enum TransportError {
    /// An I/O failure, with its message.
    Io(String),
    /// The packet could not be serialized, with the failure message.
    Serialization(String),
    /// The transport is permanently closed or its channel is gone.
    Closed,
    /// Any other failure, with its message.
    Other(String),
}

impl TransportError {
    /// Short label of the error kind (stands in for a `Display`
    /// implementation).
    pub fn kind_label(&self) -> (r: &'static str)
        ensures
            r@ == match *self {
                TransportError::Io(_) => "IO error"@,
                TransportError::Serialization(_) => "Serialization error"@,
                TransportError::Closed => "Transport closed or channel error"@,
                TransportError::Other(_) => "Other"@,
            },
    {
        match self {
            TransportError::Io(_) => "IO error",
            TransportError::Serialization(_) => "Serialization error",
            TransportError::Closed => "Transport closed or channel error",
            TransportError::Other(_) => "Other",
        }
    }
}

} // verus!
