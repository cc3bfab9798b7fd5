//! Status messages shown to the user.
use vstd::prelude::*;

verus! {

/// The kind of a status message.
#[derive(Debug, Clone, Copy, PartialEq, Eq, Structural)]
pub enum LogLevel {
    Info,
    Done,
    Warn,
    Error,
}

/// The colour in which a label is shown.
#[derive(Debug, Clone, Copy, PartialEq, Eq, Structural)]
pub enum LogColor {
    Cyan,
    Green,
    Yellow,
    Red,
}

/// The label shown for a level.
pub open spec fn label_spec(level: LogLevel) -> Seq<char> {
    match level {
        LogLevel::Info => "INFO"@,
        LogLevel::Done => "DONE"@,
        LogLevel::Warn => "WARN"@,
        LogLevel::Error => "ERROR"@,
    }
}

/// The colour of the label of a level.
pub open spec fn color_spec(level: LogLevel) -> LogColor {
    match level {
        LogLevel::Info => LogColor::Cyan,
        LogLevel::Done => LogColor::Green,
        LogLevel::Warn => LogColor::Yellow,
        LogLevel::Error => LogColor::Red,
    }
}

impl LogLevel {
    /// The label shown for this level (in bold, in its colour).
    pub fn label(&self) -> (r: String)
        ensures
            r@ == label_spec(*self),
    {
        match self {
            LogLevel::Info => "INFO".to_string(),
            LogLevel::Done => "DONE".to_string(),
            LogLevel::Warn => "WARN".to_string(),
            LogLevel::Error => "ERROR".to_string(),
        }
    }

    /// The colour of the label.
    pub fn color(&self) -> (r: LogColor)
        ensures
            r == color_spec(*self),
    {
        match self {
            LogLevel::Info => LogColor::Cyan,
            LogLevel::Done => LogColor::Green,
            LogLevel::Warn => LogColor::Yellow,
            LogLevel::Error => LogColor::Red,
        }
    }
}

/// One status message: shown on standard error as `  [LABEL] text`.
pub struct LogMessage {
    pub level: LogLevel,
    pub text: String,
}

/// A message of the given level.
pub fn log(level: LogLevel, msg: &str) -> (r: LogMessage)
    ensures
        r.level == level,
        r.text@ == msg@,
{
    LogMessage { level, text: msg.to_string() }
}

/// An informational message.
pub fn info(msg: &str) -> (r: LogMessage)
    ensures
        r.level == LogLevel::Info,
        r.text@ == msg@,
{
    log(LogLevel::Info, msg)
}

/// A message that a step is complete.
pub fn done(msg: &str) -> (r: LogMessage)
    ensures
        r.level == LogLevel::Done,
        r.text@ == msg@,
{
    log(LogLevel::Done, msg)
}

/// A warning.
pub fn warn(msg: &str) -> (r: LogMessage)
    ensures
        r.level == LogLevel::Warn,
        r.text@ == msg@,
{
    log(LogLevel::Warn, msg)
}

/// An error message.
pub fn error(msg: &str) -> (r: LogMessage)
    ensures
        r.level == LogLevel::Error,
        r.text@ == msg@,
{
    log(LogLevel::Error, msg)
}

} // verus!
