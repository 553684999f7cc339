//! What the command line selects: what to do, how much to log, and whether
//! to scan for real.

use vstd::prelude::*;
use vstd::string::*;

verus! {

/// How much is logged.
#[derive(Debug, Clone, Copy, PartialEq, Eq, Structural)]
pub enum LogLevel {
    Trace,
    Debug,
    Info,
    Warn,
    Error,
}

impl LogLevel {
    /// The level's name in lower case.
    pub open spec fn name(self) -> Seq<char> {
        match self {
            LogLevel::Trace => "trace"@,
            LogLevel::Debug => "debug"@,
            LogLevel::Info => "info"@,
            LogLevel::Warn => "warn"@,
            LogLevel::Error => "error"@,
        }
    }

    /// The level's name in lower case.
    pub fn to_string(&self) -> (text: String)
        ensures
            text@ == self.name(),
    {
        match self {
            LogLevel::Trace => String::from_str("trace"),
            LogLevel::Debug => String::from_str("debug"),
            LogLevel::Info => String::from_str("info"),
            LogLevel::Warn => String::from_str("warn"),
            LogLevel::Error => String::from_str("error"),
        }
    }
}

impl Default for LogLevel {
    fn default() -> (level: Self)
        ensures
            level == LogLevel::Info,
    {
        LogLevel::Info
    }
}

/// What the program is asked to do.
#[derive(Debug, Clone, Copy, PartialEq, Eq, Structural)]
pub enum Mode {
    /// Scan a document
    Scan,
    /// Process a scanned document
    Process,
    /// Archive a processed document
    Archive,
    /// All of it for a single document
    Single,
}

impl Default for Mode {
    fn default() -> (mode: Self)
        ensures
            mode == Mode::Single,
    {
        Mode::Single
    }
}

/// The command line, parsed.
#[derive(Debug, Clone, Copy, PartialEq, Eq, Structural)]
pub struct Args {
    /// Processing mode
    pub mode: Mode,
    /// Log level
    pub log_level: LogLevel,
    /// Copy prepared pages in place of calling the device
    pub fake_scan: bool,
}

impl Default for Args {
    /// What an empty command line stands for.
    fn default() -> (args: Self)
        ensures
            args == (Args { mode: Mode::Single, log_level: LogLevel::Info, fake_scan: false }),
    {
        Args { mode: Mode::Single, log_level: LogLevel::Info, fake_scan: false }
    }
}

} // verus!
