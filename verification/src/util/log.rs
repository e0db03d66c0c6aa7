//! The lines of the tool's log file.

use vstd::prelude::*;
use vstd::string::StringExecFns;

verus! {

/// How grave a log entry is.
#[derive(Clone, Copy, Debug, PartialEq, Eq, Structural)]
pub enum LogLevel {
    /// Something failed and the tool went on.
    Error,
    /// The tool is about to end on a panic.
    Panic,
}

impl LogLevel {
    /// The level's name in the log.
    pub fn label(&self) -> (label: &'static str)
        ensures
            label@ == match self {
                LogLevel::Error => "Error"@,
                LogLevel::Panic => "Panic"@,
            },
    {
        match self {
            LogLevel::Error => "Error",
            LogLevel::Panic => "Panic",
        }
    }
}

/// The text of a log entry: time and level in square brackets on one line,
/// the message below, then an empty line.
pub open spec fn spec_log(timestamp: Seq<char>, level: LogLevel, message: Seq<char>) -> Seq<char> {
    "["@ + timestamp + "] ["@ + match level {
        LogLevel::Error => "Error"@,
        LogLevel::Panic => "Panic"@,
    } + "]\n"@ + message + "\n\n"@
}

/// Writes out the entry for `message`; appending it to the log file is left
/// to the caller, who also supplies the time.
pub fn log(timestamp: &str, level: LogLevel, message: &str) -> (entry: String)
    ensures
        entry@ == spec_log(timestamp@, level, message@),
{
    let mut entry = String::from_str("[");
    entry.append(timestamp);
    entry.append("] [");
    entry.append(level.label());
    entry.append("]\n");
    entry.append(message);
    entry.append("\n\n");
    entry
}

} // verus!
