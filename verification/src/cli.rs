//! Command-line arguments and logging verbosity.

use vstd::prelude::*;

verus! {

/// Command-line arguments for aquafin.
#[derive(Debug)]
pub struct Cli {
    /// Re-run the first-launch setup wizard, overwriting any existing config.
    pub setup: bool,
    /// Logging verbosity (overrides the `log.level` config field).
    pub log_level: Option<LogLevel>,
}

/// Logging verbosity, from the quietest to the most talkative.
#[derive(Debug, Clone, Copy, PartialEq, Eq, Structural)]
pub enum LogLevel {
    Error,
    Warn,
    Info,
    Debug,
    Trace,
}

/// The most talkative level that a log subscriber lets through.
#[derive(Debug, Clone, Copy, PartialEq, Eq, Structural)]
pub enum LevelFilter {
    Off,
    Error,
    Warn,
    Info,
    Debug,
    Trace,
}

impl LevelFilter {
    /// How much the filter lets through; nothing at zero.
    pub open spec fn verbosity(self) -> nat {
        match self {
            LevelFilter::Off => 0,
            LevelFilter::Error => 1,
            LevelFilter::Warn => 2,
            LevelFilter::Info => 3,
            LevelFilter::Debug => 4,
            LevelFilter::Trace => 5,
        }
    }
}

impl LogLevel {
    /// How talkative the level is.
    pub open spec fn verbosity(self) -> nat {
        match self {
            LogLevel::Error => 1,
            LogLevel::Warn => 2,
            LogLevel::Info => 3,
            LogLevel::Debug => 4,
            LogLevel::Trace => 5,
        }
    }

    /// The filter that lets exactly this level and the quieter ones through.
    pub fn as_level_filter(self) -> (filter: LevelFilter)
        ensures
            filter.verbosity() == self.verbosity(),
    {
        match self {
            LogLevel::Error => LevelFilter::Error,
            LogLevel::Warn => LevelFilter::Warn,
            LogLevel::Info => LevelFilter::Info,
            LogLevel::Debug => LevelFilter::Debug,
            LogLevel::Trace => LevelFilter::Trace,
        }
    }
}

} // verus!
