//! The log: which messages are written, and how a line looks.
//!
//! Nothing is printed here. A message that is to be written comes back as a
//! line, for the caller to print.
use crate::text::{copy_text, same_text};
use vstd::prelude::*;

verus! {

/// How the time of a line is written: day, time of day and milliseconds.
pub const TIMESTAMP_PATTERN: &'static str = "%Y-%m-%d %H:%M:%S%.3f";

/// What a message is about.
#[derive(Debug, Clone, Copy, PartialEq, Eq, Structural)]
pub enum LogLevel {
    Info,
    Success,
    Error,
    Warning,
}

/// Which messages are written: `off`, `all`, or the one level that is.
#[derive(Debug)]
pub struct LogConfig {
    pub level: String,
}

/// Whether a message of `level` is written where `configured` is the configured
/// level. A level that is not known writes everything.
pub open spec fn logs(level: LogLevel, configured: Seq<char>) -> bool {
    if configured == "off"@ {
        false
    } else if configured == "info"@ {
        level is Info
    } else if configured == "success"@ {
        level is Success
    } else if configured == "error"@ {
        level is Error
    } else if configured == "warning"@ {
        level is Warning
    } else {
        true
    }
}

/// Whether `level` is one of the levels that can be configured.
pub open spec fn known_level(level: Seq<char>) -> bool {
    level == "off"@ || level == "info"@ || level == "success"@ || level == "error"@ || level
        == "warning"@ || level == "all"@
}

/// How a level is named in a line.
pub open spec fn level_tag(level: LogLevel) -> Seq<char> {
    match level {
        LogLevel::Info => "INFO"@,
        LogLevel::Success => "SUCCESS"@,
        LogLevel::Error => "ERROR"@,
        LogLevel::Warning => "WARN"@,
    }
}

/// The line of a message: the time and the level in brackets, then the message.
pub open spec fn log_line(stamp: Seq<char>, level: LogLevel, message: Seq<char>) -> Seq<char> {
    "["@ + stamp + " - "@ + level_tag(level) + "] "@ + message
}

/// Whether `line` is the line of `message` at `level`, written at some time.
pub open spec fn is_log_line(line: Seq<char>, level: LogLevel, message: Seq<char>) -> bool {
    exists|stamp: Seq<char>| line == log_line(stamp, level, message)
}

impl Default for LogConfig {
    /// Everything is written.
    fn default() -> (config: LogConfig)
        ensures
            config.level@ == "all"@,
    {
        LogConfig { level: copy_text("all") }
    }
}

/// Whether `level` is one of the levels that can be configured.
pub fn is_known_level(level: &str) -> (known: bool)
    ensures
        known == known_level(level@),
{
    same_text(level, "off") || same_text(level, "info") || same_text(level, "success")
        || same_text(level, "error") || same_text(level, "warning") || same_text(level, "all")
}

/// Whether a message of `level` is written under `config`.
pub fn should_log(level: &LogLevel, config: &LogConfig) -> (written: bool)
    ensures
        written == logs(*level, config.level@),
{
    let configured = config.level.as_str();
    if same_text(configured, "off") {
        false
    } else if same_text(configured, "info") {
        matches!(level, LogLevel::Info)
    } else if same_text(configured, "success") {
        matches!(level, LogLevel::Success)
    } else if same_text(configured, "error") {
        matches!(level, LogLevel::Error)
    } else if same_text(configured, "warning") {
        matches!(level, LogLevel::Warning)
    } else {
        true
    }
}

/// The line of `message` at `level`, written at the time that `stamp` writes.
pub fn render_line(stamp: &str, level: LogLevel, message: &str) -> (line: String)
    ensures
        line@ == log_line(stamp@, level, message@),
{
    let tag = match level {
        LogLevel::Info => "INFO",
        LogLevel::Success => "SUCCESS",
        LogLevel::Error => "ERROR",
        LogLevel::Warning => "WARN",
    };
    let mut line = copy_text("[");
    line.append(stamp);
    line.append(" - ");
    line.append(tag);
    line.append("] ");
    line.append(message);
    line
}

/// The time of the call in the local time zone, which chrono's `Local::now`
/// reads from the clock, turned into text by `DateTime::format` after
/// `pattern`. The pattern is the one of this log: what `format` gives cannot be
/// written out where it does not know the pattern. The text depends on the
/// clock, so nothing is stated of it.
#[verifier::external_body]
fn local_time(pattern: &str) -> (stamp: String)
    requires
        pattern@ == TIMESTAMP_PATTERN@,
{
    chrono::Local::now().format(pattern).to_string()
}

/// The line to write for `message` at `level`, with the time of the call, or
/// `None` where messages of that level are not written under `config`.
pub fn log(level: LogLevel, message: &str, config: &LogConfig) -> (line: Option<String>)
    ensures
        line is Some <==> logs(level, config.level@),
        line matches Some(text) ==> is_log_line(text@, level, message@),
{
    if !should_log(&level, config) {
        return None;
    }
    let stamp = local_time(TIMESTAMP_PATTERN);
    let text = render_line(stamp.as_str(), level, message);
    assert(text@ == log_line(stamp@, level, message@));
    Some(text)
}

/// The line to write for a message that informs, if it is written.
pub fn info(message: &str, config: &LogConfig) -> (line: Option<String>)
    ensures
        line is Some <==> logs(LogLevel::Info, config.level@),
        line matches Some(text) ==> is_log_line(text@, LogLevel::Info, message@),
{
    log(LogLevel::Info, message, config)
}

/// The line to write for a message of success, if it is written.
pub fn success(message: &str, config: &LogConfig) -> (line: Option<String>)
    ensures
        line is Some <==> logs(LogLevel::Success, config.level@),
        line matches Some(text) ==> is_log_line(text@, LogLevel::Success, message@),
{
    log(LogLevel::Success, message, config)
}

/// The line to write for a message of an error, if it is written.
pub fn error(message: &str, config: &LogConfig) -> (line: Option<String>)
    ensures
        line is Some <==> logs(LogLevel::Error, config.level@),
        line matches Some(text) ==> is_log_line(text@, LogLevel::Error, message@),
{
    log(LogLevel::Error, message, config)
}

/// The line to write for a warning, if it is written.
pub fn warning(message: &str, config: &LogConfig) -> (line: Option<String>)
    ensures
        line is Some <==> logs(LogLevel::Warning, config.level@),
        line matches Some(text) ==> is_log_line(text@, LogLevel::Warning, message@),
{
    log(LogLevel::Warning, message, config)
}

/// The level that is configured.
pub fn get_current_log_level(config: &LogConfig) -> (level: String)
    ensures
        level@ == config.level@,
{
    config.level.clone()
}

} // verus!
