//! Severity of the engine's log messages.

use vstd::prelude::*;

verus! {

pub const NT_LOG_CRITICAL: u32 = 50;
pub const NT_LOG_ERROR: u32 = 40;
pub const NT_LOG_WARNING: u32 = 30;
pub const NT_LOG_INFO: u32 = 20;
pub const NT_LOG_DEBUG: u32 = 10;
pub const NT_LOG_DEBUG1: u32 = 9;
pub const NT_LOG_DEBUG2: u32 = 8;
pub const NT_LOG_DEBUG3: u32 = 7;
pub const NT_LOG_DEBUG4: u32 = 6;

/// The severity under which an engine message is logged.
#[derive(Debug, Clone, Copy, PartialEq, Eq, Structural, Hash)]
pub enum LogLevel {
    Error,
    Warn,
    Info,
    Debug,
    Trace,
}

/// The severity of an engine message of level `level`, or `None` for the
/// finest levels, which are dropped.
pub open spec fn log_level_spec(level: u32) -> Option<LogLevel> {
    if level >= NT_LOG_ERROR {
        Some(LogLevel::Error)
    } else if level >= NT_LOG_WARNING {
        Some(LogLevel::Warn)
    } else if level >= NT_LOG_INFO {
        Some(LogLevel::Info)
    } else if level >= NT_LOG_DEBUG2 {
        Some(LogLevel::Debug)
    } else if level >= NT_LOG_DEBUG3 {
        Some(LogLevel::Trace)
    } else {
        None
    }
}

/// The severity of an engine message of level `level`, if it is logged at all.
pub fn log_level(level: u32) -> (r: Option<LogLevel>)
    ensures
        r == log_level_spec(level),
{
    if level >= NT_LOG_ERROR {
        Some(LogLevel::Error)
    } else if level >= NT_LOG_WARNING {
        Some(LogLevel::Warn)
    } else if level >= NT_LOG_INFO {
        Some(LogLevel::Info)
    } else if level >= NT_LOG_DEBUG2 {
        Some(LogLevel::Debug)
    } else if level >= NT_LOG_DEBUG3 {
        Some(LogLevel::Trace)
    } else {
        None
    }
}

/// Whether a message of this severity is logged with its source file and line.
pub fn shows_location(level: LogLevel) -> (r: bool)
    ensures
        r == (level == LogLevel::Error || level == LogLevel::Warn || level == LogLevel::Trace),
{
    match level {
        LogLevel::Error | LogLevel::Warn | LogLevel::Trace => true,
        LogLevel::Info | LogLevel::Debug => false,
    }
}

} // verus!
