//! The barebones logger's line format.

use vstd::prelude::*;

verus! {

/// Severity of a log record
#[derive(Clone, Copy, Debug, PartialEq, Eq, Structural)]
pub enum LogLevel {
    Trace,
    Debug,
    Info,
    Warn,
    Error,
}

/// The three-letter tag of a severity
pub open spec fn level_tag(level: LogLevel) -> Seq<char> {
    match level {
        LogLevel::Trace => "TRA"@,
        LogLevel::Debug => "DBG"@,
        LogLevel::Info => "INF"@,
        LogLevel::Warn => "WRN"@,
        LogLevel::Error => "ERR"@,
    }
}

/// Barebones logger that writes all log messages to stderr
pub struct Logger;

impl Logger {
    /// The three-letter tag of a severity
    pub fn tag(level: LogLevel) -> (tag: &'static str)
        ensures
            tag@ == level_tag(level),
    {
        match level {
            LogLevel::Trace => "TRA",
            LogLevel::Debug => "DBG",
            LogLevel::Info => "INF",
            LogLevel::Warn => "WRN",
            LogLevel::Error => "ERR",
        }
    }

    /// Every record is logged, whatever its metadata
    pub fn enabled(&self) -> (on: bool)
        ensures
            on,
    {
        true
    }

    /// The line written for a record: the tag in brackets, a space, the message
    pub fn line(level: LogLevel, message: &str) -> (line: String)
        ensures
            line@ == "["@ + level_tag(level) + "] "@ + message@,
    {
        let mut line = "[".to_owned();
        line.append(Self::tag(level));
        line.append("] ");
        line.append(message);
        line
    }
}

} // verus!
