//! Configuration for the structured logger a host application may install.
//!
//! The library itself never logs: emitting log events and installing a
//! process-wide subscriber are the host's concern.  This module only carries
//! the configuration values that callers hand to the client builder.

use vstd::prelude::*;

verus! {

/// Settings for a process-wide structured logger.
#[derive(Debug, Clone)]
pub struct LoggingConfig {
    /// Log level filter, e.g. `"info"` or `"debug"`.
    pub level: String,
    /// Emit JSON lines instead of human-readable text.
    pub json_format: bool,
    /// Redact values of sensitive fields (keys, tokens).
    pub filter_sensitive: bool,
    /// Log to this file instead of standard output, when set.
    pub file_path: Option<String>,
}

impl Default for LoggingConfig {
    /// The default configuration: `info` level, text output, sensitive
    /// values filtered, no log file.
    fn default() -> (r: Self)
        ensures
            r.level@ == "info"@,
            r.json_format == false,
            r.filter_sensitive == true,
            r.file_path is None,
    {
        LoggingConfig {
            level: String::from_str("info"),
            json_format: false,
            filter_sensitive: true,
            file_path: None,
        }
    }
}

} // verus!
