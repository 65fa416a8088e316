//! Failures that cross component boundaries.

use vstd::prelude::*;

verus! {

/// Where a failure arose.
#[derive(Clone, Copy, Debug, PartialEq, Eq, Structural)]
pub enum ErrorKind {
    /// A backend could not establish its session.
    Connectivity,
    /// Listing the containers failed outright.
    Enumeration,
    /// Inspecting one container failed.
    Inspect,
    /// Reading from or writing to the store failed.
    Persistence,
}

/// A failure together with the diagnostic that the backend gave.
#[derive(Debug, PartialEq, Eq)]
pub struct Error {
    pub kind: ErrorKind,
    pub message: String,
}

impl Error {
    /// Builds a failure of the given kind.
    pub fn new(kind: ErrorKind, message: String) -> (error: Error)
        ensures
            error.kind == kind,
            error.message == message,
    {
        Error { kind, message }
    }
}

impl Clone for Error {
    fn clone(&self) -> (copy: Error)
        ensures
            copy == *self,
    {
        Error { kind: self.kind, message: self.message.clone() }
    }
}

} // verus!
