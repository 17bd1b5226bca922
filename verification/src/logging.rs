//! The levels at which to log.

use crate::configuration::Configuration;
use vstd::prelude::*;

verus! {

/// The least level at which lines are logged.
#[derive(Clone, Copy, Debug, PartialEq, Eq, Structural)]
pub enum LogLevel {
    Off,
    Error,
    Warn,
    Info,
    Debug,
    Trace,
}

/// The levels at which to log: this program's lines, and those of the
/// libraries it works with.
#[derive(Clone, Copy, Debug, PartialEq, Eq, Structural)]
pub struct LogSetup {
    pub level: LogLevel,
    pub dependencies: LogLevel,
}

/// The levels that the settings ask for: `Info` unless one is set, and for
/// the libraries the same, but `Info` in place of `Debug`.
pub open spec fn log_setup(log_level: Option<LogLevel>) -> LogSetup {
    let level = match log_level {
        Some(level) => level,
        None => LogLevel::Info,
    };
    LogSetup {
        level: level,
        dependencies: if level == LogLevel::Debug {
            LogLevel::Info
        } else {
            level
        },
    }
}

/// Chooses the levels at which to log.
pub fn initialize(configuration: &Configuration) -> (setup: LogSetup)
    ensures
        setup == log_setup(configuration.log_level),
{
    let level = match configuration.log_level {
        Some(level) => level,
        None => LogLevel::Info,
    };
    let dependencies = if level == LogLevel::Debug {
        LogLevel::Info
    } else {
        level
    };
    LogSetup { level, dependencies }
}

} // verus!
