//! Configuration options for controlling logging.

use vstd::prelude::*;

verus! {

/// Severity level of a log message. The library assigns no ordering to the
/// levels; interpretation is left to the consumer of the configuration.
pub enum LogLevel {
    Debug,
    Info,
    Warning,
    Error,
}

/// Destination that log output should be sent to.
pub enum LogOutput {
    Stdout,
    Stderr,
    /// A file, identified by its path.
    File(String),
}

/// Configuration record for a logging subsystem: whether logging is enabled,
/// the severity level, and where the output goes. The record is passive; no
/// component of this library consumes it.
pub struct Loggin {
    pub enabled: bool,
    pub level: LogLevel,
    pub destination: LogOutput,
}

impl Loggin {
    /// Returns the default configuration: logging disabled, level `Info`,
    /// destination `Stdout`.
    pub fn new() -> (r: Loggin)
        ensures
            !r.enabled,
            r.level is Info,
            r.destination is Stdout,
    {
        Loggin { enabled: false, level: LogLevel::Info, destination: LogOutput::Stdout }
    }
}

} // verus!
