//! Error taxonomy of the monitor.
//!
//! Failures that arise at the process edge (file reads, JSON encoding) are
//! handed to the library as plain messages, so every variant carries a
//! `String` describing what went wrong.

use vstd::prelude::*;

verus! {

/// One failure of the monitoring lifecycle.
#[derive(Debug, Clone)]
pub enum MonitorError {
    /// A system file required for a reading could not be read.
    FileRead(String),
    /// A system reading was present but malformed.
    ParseError(String),
    /// An external command could not be executed.
    CommandError(String),
    /// An I/O failure outside the system files, e.g. while persisting.
    Io(String),
    /// A JSON encoding or decoding failure while persisting.
    Json(String),
}

impl MonitorError {
    /// A diagnostic line for this error, used by the process shell when
    /// logging a skipped cycle or a failed save.
    pub fn message(&self) -> (r: String)
        ensures
            r@ == self.spec_message(),
    {
        match self {
            MonitorError::FileRead(s) => {
                let mut m = String::new();
                m.append("Failed to read system file: ");
                m.append(s.as_str());
                m
            },
            MonitorError::ParseError(s) => {
                let mut m = String::new();
                m.append("Failed to parse system data: ");
                m.append(s.as_str());
                m
            },
            MonitorError::CommandError(s) => {
                let mut m = String::new();
                m.append("Failed to execute command: ");
                m.append(s.as_str());
                m
            },
            MonitorError::Io(s) => {
                let mut m = String::new();
                m.append("IO error: ");
                m.append(s.as_str());
                m
            },
            MonitorError::Json(s) => {
                let mut m = String::new();
                m.append("JSON serialization error: ");
                m.append(s.as_str());
                m
            },
        }
    }

    /// The text `message` returns: a fixed prefix naming the failure class,
    /// then the carried detail.
    pub open spec fn spec_message(self) -> Seq<char> {
        match self {
            MonitorError::FileRead(s) => "Failed to read system file: "@ + s@,
            MonitorError::ParseError(s) => "Failed to parse system data: "@ + s@,
            MonitorError::CommandError(s) => "Failed to execute command: "@ + s@,
            MonitorError::Io(s) => "IO error: "@ + s@,
            MonitorError::Json(s) => "JSON serialization error: "@ + s@,
        }
    }
}

} // verus!
