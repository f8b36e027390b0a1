//! Logging configuration: severity, destination and rotation policy.
//! The boundary layer turns this into an actual subscriber.

use vstd::prelude::*;

verus! {

/// The four severity levels log lines carry.
#[derive(Debug, Clone, Copy, PartialEq, Eq, Structural)]
pub enum LogLevel {
    Debug,
    Info,
    Warn,
    Error,
}

/// How a log file is rotated.
#[derive(Debug, Clone, PartialEq)]
pub enum LogRotation {
    Never,
    Hourly,
    Daily,
    /// Rotate when the file reaches this many bytes.
    SizeLimit(u64),
}

/// Configuration of the logging system.
#[derive(Debug, Clone, PartialEq)]
pub struct LoggingConfig {
    /// Least severity that is recorded.
    pub level: LogLevel,
    /// Log file path, when logging to a file at all.
    pub log_file: Option<String>,
    /// Also log to the console.
    pub enable_console: bool,
    /// Emit structured JSON lines instead of plain text.
    pub enable_json: bool,
    /// Rotation policy of the log file.
    pub rotation: LogRotation,
}

impl Default for LoggingConfig {
    /// The stock logging setup: informational console logging, no file,
    /// daily rotation once a file is configured.
    fn default() -> (r: Self)
        ensures
            r.level == LogLevel::Info,
            r.log_file is None,
            r.enable_console == true,
            r.enable_json == false,
            r.rotation == LogRotation::Daily,
    {
        LoggingConfig {
            level: LogLevel::Info,
            log_file: None,
            enable_console: true,
            enable_json: false,
            rotation: LogRotation::Daily,
        }
    }
}

} // verus!
