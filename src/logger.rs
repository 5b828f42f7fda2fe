use vstd::prelude::*;

verus! {

#[derive(Debug, Clone, Copy, PartialEq, Eq, Structural)]
pub enum LogLevel {
    Info,
    Error,
}

/// One log line, ready for whatever subscriber prints it.
pub struct LogRecord {
    pub level: LogLevel,
    pub message: String,
}

/// Builds log records; the application hands them to its subscriber.
pub struct AppLogger;

impl AppLogger {
    /// An informational record carrying `message`.
    pub fn info(message: &str) -> (r: LogRecord)
        ensures
            r.level == LogLevel::Info,
            r.message@ == message@,
    {
        LogRecord { level: LogLevel::Info, message: message.to_owned() }
    }

    /// An error record carrying `message`.
    pub fn error(message: &str) -> (r: LogRecord)
        ensures
            r.level == LogLevel::Error,
            r.message@ == message@,
    {
        LogRecord { level: LogLevel::Error, message: message.to_owned() }
    }
}

} // verus!
