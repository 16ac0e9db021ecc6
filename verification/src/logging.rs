//! The lines that a logger writes.

use vstd::prelude::*;
use vstd::string::*;

verus! {

/// How severe a message is.
#[derive(Debug, Clone, Copy, PartialEq, Eq, Structural)]
pub enum LogLevel {
    Info,
    Warn,
    Error,
}

/// The name of a level as it stands in a line.
pub open spec fn level_text(level: LogLevel) -> Seq<char> {
    match level {
        LogLevel::Info => "Info"@,
        LogLevel::Warn => "Warn"@,
        LogLevel::Error => "Error"@,
    }
}

/// A line of the log: the level in square brackets, a space, the message
/// and a line feed.
pub open spec fn line_text(level: LogLevel, message: Seq<char>) -> Seq<char> {
    "["@ + level_text(level) + "] "@ + message + "\n"@
}

/// The name of a level.
pub fn level_name(level: LogLevel) -> (name: &'static str)
    ensures
        name@ == level_text(level),
{
    match level {
        LogLevel::Info => "Info",
        LogLevel::Warn => "Warn",
        LogLevel::Error => "Error",
    }
}

/// The line that is written for a message.
pub fn log_line(level: LogLevel, message: &str) -> (line: String)
    ensures
        line@ == line_text(level, message@),
{
    let mut line: String = "[".to_owned();
    line.append(level_name(level));
    line.append("] ");
    line.append(message);
    line.append("\n");
    line
}

} // verus!
