//! Configuration of the service.

use vstd::prelude::*;
use vstd::string::StrSliceExecFns;

verus! {

/// How much is logged.
#[derive(Debug, Clone, Copy, PartialEq, Eq, Structural)]
pub enum LogLevel {
    Off,
    Error,
    Warn,
    Info,
    Debug,
    Trace,
}

/// Global configuration structure
#[derive(Debug, Clone)]
pub struct Config {
    /// Web server configuration
    pub server_url: String,
    /// Log level filter configuration
    pub log_level_filter: LogLevel,
    /// Persistance storage configuration
    pub database_url: String,
}

/// Whether a text spells a name in any mix of upper and lower case: it is
/// as long as the name, and each of its characters is the name's, in upper
/// or in lower case.
pub open spec fn spells(text: Seq<char>, upper: Seq<char>, lower: Seq<char>) -> bool {
    text.len() == upper.len() && forall|i: int|
        0 <= i < text.len() ==> #[trigger] text[i] == upper[i] || text[i] == lower[i]
}

/// The level that a text names: the level's name in any mix of upper and
/// lower case.
pub open spec fn level_named(text: Seq<char>) -> Option<LogLevel> {
    if spells(text, "OFF"@, "off"@) {
        Some(LogLevel::Off)
    } else if spells(text, "ERROR"@, "error"@) {
        Some(LogLevel::Error)
    } else if spells(text, "WARN"@, "warn"@) {
        Some(LogLevel::Warn)
    } else if spells(text, "INFO"@, "info"@) {
        Some(LogLevel::Info)
    } else if spells(text, "DEBUG"@, "debug"@) {
        Some(LogLevel::Debug)
    } else if spells(text, "TRACE"@, "trace"@) {
        Some(LogLevel::Trace)
    } else {
        None
    }
}

/// Whether a text spells a name in any mix of upper and lower case.
fn is_spelled(text: &str, upper: &str, lower: &str) -> (spelled: bool)
    requires
        upper@.len() == lower@.len(),
    ensures
        spelled == spells(text@, upper@, lower@),
{
    let length = text.unicode_len();
    if length != upper.unicode_len() {
        return false;
    }
    let mut i: usize = 0;
    while i < length
        invariant
            i <= length,
            length == text@.len(),
            length == upper@.len(),
            length == lower@.len(),
            forall|j: int| 0 <= j < i ==> #[trigger] text@[j] == upper@[j] || text@[j] == lower@[j],
        decreases length - i,
    {
        let c = text.get_char(i);
        if c != upper.get_char(i) && c != lower.get_char(i) {
            return false;
        }
        i += 1;
    }
    true
}

/// The level that a text names, if it names one.
pub fn parse_level(text: &str) -> (level: Option<LogLevel>)
    ensures
        level == level_named(text@),
{
    proof {
        reveal_strlit("OFF");
        reveal_strlit("off");
        reveal_strlit("ERROR");
        reveal_strlit("error");
        reveal_strlit("WARN");
        reveal_strlit("warn");
        reveal_strlit("INFO");
        reveal_strlit("info");
        reveal_strlit("DEBUG");
        reveal_strlit("debug");
        reveal_strlit("TRACE");
        reveal_strlit("trace");
    }
    if is_spelled(text, "OFF", "off") {
        Some(LogLevel::Off)
    } else if is_spelled(text, "ERROR", "error") {
        Some(LogLevel::Error)
    } else if is_spelled(text, "WARN", "warn") {
        Some(LogLevel::Warn)
    } else if is_spelled(text, "INFO", "info") {
        Some(LogLevel::Info)
    } else if is_spelled(text, "DEBUG", "debug") {
        Some(LogLevel::Debug)
    } else if is_spelled(text, "TRACE", "trace") {
        Some(LogLevel::Trace)
    } else {
        None
    }
}

/// The level that is logged at when nothing else is said.
pub fn default_log_level() -> (level: LogLevel)
    ensures
        level == LogLevel::Debug,
{
    LogLevel::Debug
}

/// The level that a configured text asks for; the default level where the
/// text names none.
pub open spec fn configured_level(text: Seq<char>) -> LogLevel {
    match level_named(text) {
        Some(level) => level,
        None => LogLevel::Debug,
    }
}

/// Reads the log level from its configured text. A text that names no
/// level gives the default level.
pub fn deserialize_log_level(text: &str) -> (level: LogLevel)
    ensures
        level == configured_level(text@),
{
    match parse_level(text) {
        Some(level) => level,
        None => default_log_level(),
    }
}

} // verus!
