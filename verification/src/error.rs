//! Error taxonomy of the daemon core.
//!
//! Connection-level failures (read, parse) are isolated to one connection;
//! command-handler and run-lifecycle failures are isolated to one session.
//! None of them terminates the daemon itself.

use vstd::prelude::*;

verus! {

/// An error produced by the daemon's decision core.
///
/// Each variant carries a human-readable cause. Variants map onto the
/// daemon's failure taxonomy: malformed requests, commands invoked with
/// missing arguments, unresolvable build settings, and run-lifecycle
/// failures (boot / install / launch / stream).
#[derive(Debug)]
pub enum DaemonError {
    /// A connection's payload could not be read.
    Read(String),
    /// A request payload could not be parsed into a known command.
    Parse(String),
    /// A command was invoked with too few arguments.
    MissingArguments(String),
    /// The build settings did not resolve to a runnable binary.
    BuildSettings(String),
    /// A run-lifecycle step failed.
    Run(String),
}

impl DaemonError {
    /// The spec-level text carried by this error.
    pub open spec fn cause(&self) -> Seq<char> {
        match self {
            DaemonError::Read(s) => s@,
            DaemonError::Parse(s) => s@,
            DaemonError::MissingArguments(s) => s@,
            DaemonError::BuildSettings(s) => s@,
            DaemonError::Run(s) => s@,
        }
    }

    /// Human-readable rendering of the error, used for diagnostic log lines.
    pub fn message(&self) -> (r: String)
        ensures
            r@ == self.prefix() + self.cause(),
    {
        match self {
            DaemonError::Read(s) => String::from_str("[Read Error] ").concat(s.as_str()),
            DaemonError::Parse(s) => String::from_str("[Parse Error] ").concat(s.as_str()),
            DaemonError::MissingArguments(s) => String::from_str("[Missing Arguments] ").concat(
                s.as_str(),
            ),
            DaemonError::BuildSettings(s) => String::from_str("[Build Settings] ").concat(
                s.as_str(),
            ),
            DaemonError::Run(s) => String::from_str("[Run Error] ").concat(s.as_str()),
        }
    }

    /// The prefix that `message` puts before the cause of each variant.
    pub open spec fn prefix(&self) -> Seq<char> {
        match self {
            DaemonError::Read(_) => "[Read Error] "@,
            DaemonError::Parse(_) => "[Parse Error] "@,
            DaemonError::MissingArguments(_) => "[Missing Arguments] "@,
            DaemonError::BuildSettings(_) => "[Build Settings] "@,
            DaemonError::Run(_) => "[Run Error] "@,
        }
    }
}

} // verus!
