use vstd::prelude::*;

verus! {

/// The colors of console output.
#[derive(Clone, Copy, Debug, PartialEq, Eq, Structural)]
pub enum LogColor {
    Red,
    Yellow,
    Green,
    Cyan,
    Grey,
    White,
}

/// The severity levels of log messages.
#[derive(Clone, Copy, Debug, PartialEq, Eq, Structural)]
pub enum LogSeverity {
    Debug,
    Info,
    Warning,
    Error,
}

/// A severity with the color that it is shown in.
#[derive(Clone, Copy, Debug, PartialEq, Eq, Structural)]
pub struct LogInfo {
    pub severity: LogSeverity,
    pub color: LogColor,
}

/// The ANSI escape sequence of each color.
pub open spec fn escape_code(color: LogColor) -> Seq<char> {
    match color {
        LogColor::Red => "\x1b[91m"@,
        LogColor::Yellow => "\x1b[93m"@,
        LogColor::Green => "\x1b[92m"@,
        LogColor::Cyan => "\x1b[96m"@,
        LogColor::Grey => "\x1b[90m"@,
        LogColor::White => "\x1b[97m"@,
    }
}

/// The printed name of each severity.
pub open spec fn severity_name(severity: LogSeverity) -> Seq<char> {
    match severity {
        LogSeverity::Debug => "Debug"@,
        LogSeverity::Info => "Info"@,
        LogSeverity::Warning => "Warning"@,
        LogSeverity::Error => "Error"@,
    }
}

impl LogColor {
    /// The ANSI escape sequence that switches the console to this color.
    pub fn get_escape_code(&self) -> (r: &'static str)
        ensures
            r@ == escape_code(*self),
    {
        match self {
            LogColor::Red => "\x1b[91m",
            LogColor::Yellow => "\x1b[93m",
            LogColor::Green => "\x1b[92m",
            LogColor::Cyan => "\x1b[96m",
            LogColor::Grey => "\x1b[90m",
            LogColor::White => "\x1b[97m",
        }
    }
}

impl LogSeverity {
    /// The name that is printed for this severity.
    pub fn get_name(&self) -> (r: &'static str)
        ensures
            r@ == severity_name(*self),
    {
        match self {
            LogSeverity::Debug => "Debug",
            LogSeverity::Info => "Info",
            LogSeverity::Warning => "Warning",
            LogSeverity::Error => "Error",
        }
    }
}

impl LogInfo {
    pub fn new(severity: LogSeverity, color: LogColor) -> (r: LogInfo)
        ensures
            r.severity == severity,
            r.color == color,
    {
        LogInfo { severity, color }
    }
}

/// One log entry, ready to be printed: its severity and color, the message and
/// where it was written.
#[derive(Clone, Copy, Debug, PartialEq, Eq)]
pub struct LogRecord<'a> {
    pub info: LogInfo,
    pub message: &'a str,
    pub file: &'a str,
    pub line_number: u32,
}

impl<'a> LogRecord<'a> {
    /// Whether the message has a line of its own: an empty one is not printed.
    pub fn shows_message(&self) -> (r: bool)
        ensures
            r == (self.message@.len() > 0),
    {
        !self.message.is_empty()
    }
}

/// Builds log entries; each severity has its fixed color.
pub struct Logger;

impl Logger {
    /// A debug entry, shown in green.
    pub fn debug<'a>(message: &'a str, file: &'a str, line_number: u32) -> (r: LogRecord<'a>)
        ensures
            r.info == (LogInfo { severity: LogSeverity::Debug, color: LogColor::Green }),
            r.message == message,
            r.file == file,
            r.line_number == line_number,
    {
        LogRecord { info: LogInfo::new(LogSeverity::Debug, LogColor::Green), message, file, line_number }
    }

    /// An info entry, shown in cyan.
    pub fn info<'a>(message: &'a str, file: &'a str, line_number: u32) -> (r: LogRecord<'a>)
        ensures
            r.info == (LogInfo { severity: LogSeverity::Info, color: LogColor::Cyan }),
            r.message == message,
            r.file == file,
            r.line_number == line_number,
    {
        LogRecord { info: LogInfo::new(LogSeverity::Info, LogColor::Cyan), message, file, line_number }
    }

    /// A warning entry, shown in yellow.
    pub fn warn<'a>(message: &'a str, file: &'a str, line_number: u32) -> (r: LogRecord<'a>)
        ensures
            r.info == (LogInfo { severity: LogSeverity::Warning, color: LogColor::Yellow }),
            r.message == message,
            r.file == file,
            r.line_number == line_number,
    {
        LogRecord {
            info: LogInfo::new(LogSeverity::Warning, LogColor::Yellow),
            message,
            file,
            line_number,
        }
    }

    /// An error entry, shown in red.
    pub fn error<'a>(message: &'a str, file: &'a str, line_number: u32) -> (r: LogRecord<'a>)
        ensures
            r.info == (LogInfo { severity: LogSeverity::Error, color: LogColor::Red }),
            r.message == message,
            r.file == file,
            r.line_number == line_number,
    {
        LogRecord { info: LogInfo::new(LogSeverity::Error, LogColor::Red), message, file, line_number }
    }
}

} // verus!
