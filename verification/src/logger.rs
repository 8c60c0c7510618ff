//! Logging utilities.  The library renders log lines; printing them is the
//! caller's business.

use vstd::prelude::*;
use vstd::string::*;
use crate::text::push_char;

verus! {

/// Log severity.
#[derive(Debug, Clone, Copy, PartialEq, Eq, Structural)]
pub enum LogLevel {
    Debug,
    Info,
    Warning,
    Error,
}

/// Label of a log level.
pub open spec fn spec_log_label(l: LogLevel) -> Seq<char> {
    match l {
        LogLevel::Debug => "Debug"@,
        LogLevel::Info => "Info"@,
        LogLevel::Warning => "Warning"@,
        LogLevel::Error => "Error"@,
    }
}

impl LogLevel {
    /// Label of this level (stands in for a `Display` implementation).
    pub fn label(&self) -> (r: &'static str)
        ensures
            r@ == spec_log_label(*self),
    {
        match self {
            LogLevel::Debug => "Debug",
            LogLevel::Info => "Info",
            LogLevel::Warning => "Warning",
            LogLevel::Error => "Error",
        }
    }
}

/// Simple logger: holds its configured level and renders log lines.
#[derive(Debug)]
pub struct Logger {
    level: LogLevel,
}

impl Logger {
    /// Configured level of this logger.
    pub closed spec fn spec_level(&self) -> LogLevel {
        self.level
    }

    /// A new logger at the given level.
    pub fn new(level: LogLevel) -> (r: Logger)
        ensures
            r.spec_level() == level,
    {
        Logger { level }
    }

    /// Render one log line as `[Level] message`.
    pub fn format_message(&self, level: LogLevel, message: &str) -> (r: String)
        ensures
            r@ == seq!['['] + spec_log_label(level) + seq![']', ' '] + message@,
    {
        let mut out = String::new();
        push_char(&mut out, '[');
        out.append(level.label());
        push_char(&mut out, ']');
        push_char(&mut out, ' ');
        out.append(message);
        proof {
            assert(out@ =~= seq!['['] + spec_log_label(level) + seq![']', ' '] + message@);
        }
        out
    }
}

} // verus!
