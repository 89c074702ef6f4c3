//! Which messages reach the log file, and at what severity.
use vstd::prelude::*;

verus! {

/// The most verbose level a sink accepts; `Off` accepts nothing.
#[derive(Clone, Copy, Debug, PartialEq, Eq)]
pub enum LevelFilter {
    Off,
    Error,
    Warn,
    Info,
    Debug,
    Trace,
}

/// The severity a message is written with.
#[derive(Clone, Copy, Debug, PartialEq, Eq)]
pub enum Level {
    Error,
    Warn,
    Info,
    Debug,
}

/// A message as it is handed to the log sink.
#[derive(Debug, PartialEq, Eq)]
pub struct LogRecord {
    pub level: Level,
    pub message: String,
}

/// The severity that a message sent at `level` is written with: the four
/// named severities stand for themselves, and neither `Off` nor `Trace`
/// writes anything.
pub open spec fn severity_of(level: LevelFilter) -> Option<Level> {
    match level {
        LevelFilter::Error => Some(Level::Error),
        LevelFilter::Warn => Some(Level::Warn),
        LevelFilter::Info => Some(Level::Info),
        LevelFilter::Debug => Some(Level::Debug),
        _ => None,
    }
}

/// The record to write for `message` at `level`, if any.
pub fn log_to_file(message: String, level: LevelFilter) -> (r: Option<LogRecord>)
    ensures
        match severity_of(level) {
            Some(l) => r matches Some(rec) && rec.level == l && rec.message@ == message@,
            None => r is None,
        },
{
    let severity = match level {
        LevelFilter::Error => Some(Level::Error),
        LevelFilter::Warn => Some(Level::Warn),
        LevelFilter::Info => Some(Level::Info),
        LevelFilter::Debug => Some(Level::Debug),
        _ => None,
    };
    match severity {
        Some(l) => Some(LogRecord { level: l, message }),
        None => None,
    }
}

} // verus!
