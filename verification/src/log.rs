use vstd::prelude::*;

use crate::raw;

verus! {

/// The severity of a log message, and the threshold for delivering them.
///
/// The variants are ordered from least to most severe. A message is delivered
/// only when its level is at or above the threshold.
#[derive(Debug, Clone, Copy, PartialEq, Eq, PartialOrd, Ord, Hash, Structural)]
pub enum Level {
    /// Fine-grained tracing of prism's internals.
    Trace,
    /// Diagnostic information useful during development.
    Debug,
    /// Messages describing normal operation.
    Info,
    /// Conditions that are not errors but may point at a problem.
    Warn,
    /// Error conditions.
    Error,
    /// Not a message severity. As a threshold it discards every message.
    Off,
}

/// The code prism uses for `level`.
pub open spec fn level_code(level: Level) -> i32 {
    match level {
        Level::Trace => raw::PRISM_LOG_LEVEL_TRACE,
        Level::Debug => raw::PRISM_LOG_LEVEL_DEBUG,
        Level::Info => raw::PRISM_LOG_LEVEL_INFO,
        Level::Warn => raw::PRISM_LOG_LEVEL_WARN,
        Level::Error => raw::PRISM_LOG_LEVEL_ERROR,
        Level::Off => raw::PRISM_LOG_LEVEL_NONE,
    }
}

/// The level that prism's code `code` stands for; every code that names no
/// message severity reads as `Off`.
pub open spec fn level_of_code(code: i32) -> Level {
    if code == raw::PRISM_LOG_LEVEL_TRACE {
        Level::Trace
    } else if code == raw::PRISM_LOG_LEVEL_DEBUG {
        Level::Debug
    } else if code == raw::PRISM_LOG_LEVEL_INFO {
        Level::Info
    } else if code == raw::PRISM_LOG_LEVEL_WARN {
        Level::Warn
    } else if code == raw::PRISM_LOG_LEVEL_ERROR {
        Level::Error
    } else {
        Level::Off
    }
}

impl Level {
    /// Returns the code prism uses for this level.
    pub fn to_raw(self) -> (code: i32)
        ensures
            code == level_code(self),
    {
        match self {
            Level::Trace => raw::PRISM_LOG_LEVEL_TRACE,
            Level::Debug => raw::PRISM_LOG_LEVEL_DEBUG,
            Level::Info => raw::PRISM_LOG_LEVEL_INFO,
            Level::Warn => raw::PRISM_LOG_LEVEL_WARN,
            Level::Error => raw::PRISM_LOG_LEVEL_ERROR,
            Level::Off => raw::PRISM_LOG_LEVEL_NONE,
        }
    }

    /// Reads a level from prism's code for it.
    pub fn from_raw(code: i32) -> (level: Level)
        ensures
            level == level_of_code(code),
    {
        match code {
            raw::PRISM_LOG_LEVEL_TRACE => Level::Trace,
            raw::PRISM_LOG_LEVEL_DEBUG => Level::Debug,
            raw::PRISM_LOG_LEVEL_INFO => Level::Info,
            raw::PRISM_LOG_LEVEL_WARN => Level::Warn,
            raw::PRISM_LOG_LEVEL_ERROR => Level::Error,
            _ => Level::Off,
        }
    }
}

/// Every level survives a trip through its code, and the codes of the
/// levels, in declaration order, are the consecutive codes from trace to none.
pub proof fn lemma_level_round_trip(level: Level)
    ensures
        level_of_code(level_code(level)) == level,
        raw::PRISM_LOG_LEVEL_TRACE <= level_code(level) <= raw::PRISM_LOG_LEVEL_NONE,
{
}

/// Every code from trace to none survives a trip through its level; every
/// other code reads as `Off`.
pub proof fn lemma_code_round_trip(code: i32)
    ensures
        raw::PRISM_LOG_LEVEL_TRACE <= code <= raw::PRISM_LOG_LEVEL_NONE ==> level_code(
            level_of_code(code),
        ) == code,
        !(raw::PRISM_LOG_LEVEL_TRACE <= code <= raw::PRISM_LOG_LEVEL_ERROR) ==> level_of_code(code)
            == Level::Off,
{
}

} // verus!
