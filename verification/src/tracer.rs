//! Configuration of a logging observer.
//!
//! The emission of log events happens outside the library; what the
//! library holds is the verbosity such an observer logs at.  Only
//! non-error verbosities exist, so a logger for ordinary progress messages
//! can never claim an error severity.

use vstd::prelude::*;

verus! {

/// The verbosity a logging observer emits its events at.
///
/// Error and warning severities are deliberately absent: progress messages
/// are never errors.
#[derive(Clone, Copy, Debug, PartialEq, Eq, Structural)]
pub enum Verbosity {
    /// Informational messages.
    Info,
    /// Debugging messages.
    Debug,
    /// Tracing messages.
    Trace,
}

/// The configuration of a logging observer.
#[derive(Clone, Copy, Debug, PartialEq, Eq, Structural)]
pub struct Tracer {
    /// The verbosity the observer logs at.
    pub level: Verbosity,
}

impl Tracer {
    /// Configure a logging observer with the given verbosity.
    pub fn new(level: Verbosity) -> (r: Self)
        ensures
            r.level == level,
    {
        Tracer { level }
    }
}

} // verus!
