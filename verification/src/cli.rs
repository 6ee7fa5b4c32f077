//! The command surface: what the program can be asked to do.

use vstd::prelude::*;

verus! {

/// The operations of the program.
#[derive(Clone, Debug, PartialEq, Eq)]
pub enum Commands {
    /// Score a project.
    Score {
        /// Path of the project or binary to score.
        path: String,
        /// Name of a build target, or path of an executable, to benchmark.
        bin: Option<String>,
    },
    /// Generate reports, or serve them.
    Report {
        /// Serve a web dashboard instead of writing files.
        serve: bool,
        /// Port of the dashboard.
        port: u16,
    },
    /// Print the version.
    Version,
}

/// What the command line holds.
#[derive(Clone, Debug, PartialEq, Eq)]
pub struct Cli {
    /// How often verbose logging was asked for.
    pub verbose: u8,
    /// The operation.
    pub command: Commands,
}

/// How much is logged.
#[derive(Clone, Copy, Debug, PartialEq, Eq, Structural)]
pub enum LogLevel {
    /// Informational messages.
    Info,
    /// Messages for debugging as well.
    Debug,
    /// Everything.
    Trace,
}

/// The level that a verbosity count asks for.
pub open spec fn level_of(verbosity: u8) -> LogLevel {
    if verbosity == 0 {
        LogLevel::Info
    } else if verbosity == 1 {
        LogLevel::Debug
    } else {
        LogLevel::Trace
    }
}

impl LogLevel {
    /// The level that a verbosity count asks for: informational by default,
    /// debugging when asked once, everything beyond.
    pub fn from_verbosity(verbosity: u8) -> (l: LogLevel)
        ensures
            l == level_of(verbosity),
    {
        if verbosity == 0 {
            LogLevel::Info
        } else if verbosity == 1 {
            LogLevel::Debug
        } else {
            LogLevel::Trace
        }
    }

    /// The name of the level as logging filters spell it.
    pub fn name(&self) -> (s: &'static str)
        ensures
            s@ == match self {
                LogLevel::Info => "info"@,
                LogLevel::Debug => "debug"@,
                LogLevel::Trace => "trace"@,
            },
    {
        match self {
            LogLevel::Info => "info",
            LogLevel::Debug => "debug",
            LogLevel::Trace => "trace",
        }
    }
}

} // verus!
