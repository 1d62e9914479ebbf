//! Log lines: the console handler for libobs's own log and the file logger.
use vstd::prelude::*;

verus! {

/// libobs's `LOG_ERROR` level.
pub const LOG_ERROR: i32 = 100;
/// libobs's `LOG_WARNING` level.
pub const LOG_WARNING: i32 = 200;
/// libobs's `LOG_INFO` level.
pub const LOG_INFO: i32 = 300;
/// libobs's `LOG_DEBUG` level.
pub const LOG_DEBUG: i32 = 400;

/// The label of a libobs log level.
pub open spec fn level_label_of(level: i32) -> Seq<char> {
    if level == LOG_ERROR {
        "ERROR"@
    } else if level == LOG_WARNING {
        "WARNING"@
    } else if level == LOG_INFO {
        "INFO"@
    } else if level == LOG_DEBUG {
        "DEBUG"@
    } else {
        "UNKNOWN"@
    }
}

/// The label of a libobs log level; levels that libobs does not define are
/// `UNKNOWN`.
pub fn level_label(level: i32) -> (r: &'static str)
    ensures
        r@ == level_label_of(level),
{
    if level == LOG_ERROR {
        "ERROR"
    } else if level == LOG_WARNING {
        "WARNING"
    } else if level == LOG_INFO {
        "INFO"
    } else if level == LOG_DEBUG {
        "DEBUG"
    } else {
        "UNKNOWN"
    }
}

/// The console line for a formatted libobs message: `[LABEL] message`.
pub open spec fn console_line_of(level: i32, message: Seq<char>) -> Seq<char> {
    "["@ + level_label_of(level) + "] "@ + message
}

/// Builds the console line for a formatted libobs message.
pub fn console_log_line(level: i32, message: &str) -> (r: String)
    ensures
        r@ == console_line_of(level, message@),
{
    let mut r = String::from_str("[");
    r.append(level_label(level));
    r.append("] ");
    r.append(message);
    r
}

/// The levels of the wrapper's log.
#[derive(Clone, Copy, PartialEq, Eq, Structural)]
pub enum LogLevel {
    Error,
    Warning,
    Info,
    Debug,
}

/// The line the file logger writes for a message: debug messages are left
/// out, every other message is written on a line of its own.
pub open spec fn file_line_of(level: LogLevel, message: Seq<char>) -> Option<Seq<char>> {
    if level == LogLevel::Debug {
        None
    } else {
        Some(message + "\n"@)
    }
}

/// The text the file logger appends for a message, if any.
pub fn file_log_line(level: LogLevel, message: &str) -> (r: Option<String>)
    ensures
        match r {
            Some(s) => file_line_of(level, message@) == Some(s@),
            None => file_line_of(level, message@) is None,
        },
{
    if level == LogLevel::Debug {
        None
    } else {
        let mut s = String::from_str(message);
        s.append("\n");
        Some(s)
    }
}

} // verus!
