//! The logging settings that the server accepts.

use vstd::prelude::*;
use vstd::string::*;
use crate::error::Error;
use crate::outside::{lower_of, to_lowercase};
use crate::text::same;

verus! {

/// The verbosity of the log.
#[derive(Debug, Clone, Copy, PartialEq, Eq, Structural)]
pub enum LogLevel {
    Trace,
    Debug,
    Info,
    Warn,
    Error,
}

/// The level that a lower-case name denotes.
pub open spec fn level_named(lower: Seq<char>) -> Option<LogLevel> {
    if lower == "trace"@ {
        Some(LogLevel::Trace)
    } else if lower == "debug"@ {
        Some(LogLevel::Debug)
    } else if lower == "info"@ {
        Some(LogLevel::Info)
    } else if lower == "warn"@ {
        Some(LogLevel::Warn)
    } else if lower == "error"@ {
        Some(LogLevel::Error)
    } else {
        None
    }
}

/// Reads the level named by `lower`, the lower-cased form of `level`; an
/// unknown name is a configuration error that quotes `level`.
pub fn log_level_from_lowercase(lower: &str, level: &str) -> (r: Result<LogLevel, Error>)
    ensures
        r is Ok <==> level_named(lower@) is Some,
        r is Ok ==> r->Ok_0 == level_named(lower@)->Some_0,
        r is Err ==> r->Err_0 is Config && r->Err_0->Config_0 is Invalid
            && r->Err_0->Config_0->Invalid_key@ == "logging.level"@
            && r->Err_0->Config_0->Invalid_value@ == level@,
{
    if same(lower, "trace") {
        Ok(LogLevel::Trace)
    } else if same(lower, "debug") {
        Ok(LogLevel::Debug)
    } else if same(lower, "info") {
        Ok(LogLevel::Info)
    } else if same(lower, "warn") {
        Ok(LogLevel::Warn)
    } else if same(lower, "error") {
        Ok(LogLevel::Error)
    } else {
        Err(Error::config_invalid("logging.level", level))
    }
}

/// Reads a level name in any letter case.
pub fn parse_log_level(level: &str) -> (r: Result<LogLevel, Error>)
    ensures
        r is Ok <==> level_named(lower_of(level@)) is Some,
        r is Ok ==> r->Ok_0 == level_named(lower_of(level@))->Some_0,
        r is Err ==> r->Err_0 is Config && r->Err_0->Config_0 is Invalid
            && r->Err_0->Config_0->Invalid_key@ == "logging.level"@
            && r->Err_0->Config_0->Invalid_value@ == level@,
{
    let lower = to_lowercase(level);
    log_level_from_lowercase(lower.as_str(), level)
}

/// The upper-case name of a level.
pub open spec fn level_name(level: LogLevel) -> Seq<char> {
    match level {
        LogLevel::Trace => "TRACE"@,
        LogLevel::Debug => "DEBUG"@,
        LogLevel::Info => "INFO"@,
        LogLevel::Warn => "WARN"@,
        LogLevel::Error => "ERROR"@,
    }
}

impl LogLevel {
    /// The upper-case name of the level.
    pub fn as_str(&self) -> (r: &'static str)
        ensures
            r@ == level_name(*self),
    {
        match self {
            LogLevel::Trace => "TRACE",
            LogLevel::Debug => "DEBUG",
            LogLevel::Info => "INFO",
            LogLevel::Warn => "WARN",
            LogLevel::Error => "ERROR",
        }
    }
}

/// The filter used when the environment sets none: the server's own
/// events at `level`.
pub fn default_filter(level: LogLevel) -> (r: String)
    ensures
        r@ == "container_codes="@ + level_name(level),
{
    let mut s = String::from_str("container_codes=");
    s.append(level.as_str());
    s
}

/// The layout of log lines.
#[derive(Debug, Clone, Copy, PartialEq, Eq, Structural)]
pub enum LogFormat {
    Json,
    Pretty,
    Compact,
}

pub open spec fn format_named(name: Seq<char>) -> Option<LogFormat> {
    if name == "json"@ {
        Some(LogFormat::Json)
    } else if name == "pretty"@ {
        Some(LogFormat::Pretty)
    } else if name == "compact"@ {
        Some(LogFormat::Compact)
    } else {
        None
    }
}

/// Reads a log format name; the names are matched exactly.
pub fn parse_log_format(format: &str) -> (r: Result<LogFormat, Error>)
    ensures
        r is Ok <==> format_named(format@) is Some,
        r is Ok ==> r->Ok_0 == format_named(format@)->Some_0,
        r is Err ==> r->Err_0 is Config && r->Err_0->Config_0 is Invalid
            && r->Err_0->Config_0->Invalid_key@ == "logging.format"@
            && r->Err_0->Config_0->Invalid_value@ == format@,
{
    if same(format, "json") {
        Ok(LogFormat::Json)
    } else if same(format, "pretty") {
        Ok(LogFormat::Pretty)
    } else if same(format, "compact") {
        Ok(LogFormat::Compact)
    } else {
        Err(Error::config_invalid("logging.format", format))
    }
}

} // verus!
