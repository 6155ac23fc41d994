use vstd::prelude::*;

verus! {

/// How grave a log entry is.
#[derive(Debug, Clone, Copy, PartialEq, Eq, Structural)]
pub enum Level {
    Warn,
    Info,
    Error,
    Success,
}

/// The name of a level in a log line.
pub open spec fn level_name(level: Level) -> Seq<char> {
    match level {
        Level::Info => "INFO"@,
        Level::Warn => "WARN"@,
        Level::Error => "ERROR"@,
        Level::Success => "SUCCESS"@,
    }
}

/// The event under which an entry of a level is shown in the log view.
pub open spec fn log_target(level: Level) -> Seq<char> {
    match level {
        Level::Warn => "log:warn"@,
        Level::Info => "log:info"@,
        Level::Error => "log:error"@,
        Level::Success => "log:success"@,
    }
}

/// The event under which an entry of a level is shown as a message.
pub open spec fn message_target(level: Level) -> Seq<char> {
    match level {
        Level::Warn => "msg:warn"@,
        Level::Info => "msg:info"@,
        Level::Error => "msg:error"@,
        Level::Success => "msg:success"@,
    }
}

impl Level {
    /// The name of the level in a log line.
    pub fn as_str(&self) -> (name: &'static str)
        ensures
            name@ == level_name(*self),
    {
        match self {
            Level::Info => "INFO",
            Level::Warn => "WARN",
            Level::Error => "ERROR",
            Level::Success => "SUCCESS",
        }
    }

    /// The event under which an entry of this level is shown in the log view.
    pub fn log_target(&self) -> (name: &'static str)
        ensures
            name@ == log_target(*self),
    {
        match self {
            Level::Warn => "log:warn",
            Level::Info => "log:info",
            Level::Error => "log:error",
            Level::Success => "log:success",
        }
    }

    /// The event under which an entry of this level is shown as a message.
    pub fn message_target(&self) -> (name: &'static str)
        ensures
            name@ == message_target(*self),
    {
        match self {
            Level::Warn => "msg:warn",
            Level::Info => "msg:info",
            Level::Error => "msg:error",
            Level::Success => "msg:success",
        }
    }
}

} // verus!
