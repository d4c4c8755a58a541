//! Log level configuration. Installing a subscriber is left to the
//! embedding program.

use vstd::prelude::*;

verus! {

/// Verbosity levels for logging.
#[derive(Debug, Clone, Copy, PartialEq, Eq, Structural)]
pub enum LogLevel {
    /// Very verbose.
    Trace,
    /// Detailed information.
    Debug,
    /// General information.
    Info,
    /// Warnings.
    Warn,
    /// Errors only.
    Error,
}

/// The filter string of each level.
pub open spec fn filter_str_of(level: LogLevel) -> Seq<char> {
    match level {
        LogLevel::Trace => "trace"@,
        LogLevel::Debug => "debug"@,
        LogLevel::Info => "info"@,
        LogLevel::Warn => "warn"@,
        LogLevel::Error => "error"@,
    }
}

impl LogLevel {
    /// The level as a filter string.
    pub fn as_filter_str(&self) -> (r: &'static str)
        ensures
            r@ == filter_str_of(*self),
    {
        match self {
            LogLevel::Trace => "trace",
            LogLevel::Debug => "debug",
            LogLevel::Info => "info",
            LogLevel::Warn => "warn",
            LogLevel::Error => "error",
        }
    }
}

impl Default for LogLevel {
    /// The default level reports general information.
    fn default() -> (r: LogLevel)
        ensures
            r == LogLevel::Info,
    {
        LogLevel::Info
    }
}

} // verus!
