//! Log levels of libobs messages, the trait through which messages reach a logger, and
//! the line a file logger writes for each message.
use vstd::prelude::*;

verus! {

/// The level of a libobs log message.
#[derive(Clone, Copy, Debug, PartialEq, Eq, Hash, Structural)]
pub enum ObsLogLevel {
    Error,
    Warning,
    Info,
    Debug,
}

/// The level that raw libobs level `raw` (`LOG_ERROR` and its siblings) stands for.
pub open spec fn log_level_of(raw: i32) -> Option<ObsLogLevel> {
    if raw == 100 {
        Some(ObsLogLevel::Error)
    } else if raw == 200 {
        Some(ObsLogLevel::Warning)
    } else if raw == 300 {
        Some(ObsLogLevel::Info)
    } else if raw == 400 {
        Some(ObsLogLevel::Debug)
    } else {
        None
    }
}

/// The name of a level, as `{:?}` prints it.
pub open spec fn log_level_name(level: ObsLogLevel) -> Seq<char> {
    match level {
        ObsLogLevel::Error => "Error"@,
        ObsLogLevel::Warning => "Warning"@,
        ObsLogLevel::Info => "Info"@,
        ObsLogLevel::Debug => "Debug"@,
    }
}

impl ObsLogLevel {
    /// The level for a raw libobs level; `None` for a number libobs does not define.
    pub fn from_i32(raw: i32) -> (r: Option<Self>)
        ensures
            r == log_level_of(raw),
    {
        if raw == 100 {
            Some(ObsLogLevel::Error)
        } else if raw == 200 {
            Some(ObsLogLevel::Warning)
        } else if raw == 300 {
            Some(ObsLogLevel::Info)
        } else if raw == 400 {
            Some(ObsLogLevel::Debug)
        } else {
            None
        }
    }

    /// The raw libobs number of the level.
    pub fn to_i32(&self) -> (r: i32)
        ensures
            log_level_of(r) == Some(*self),
    {
        match self {
            ObsLogLevel::Error => 100,
            ObsLogLevel::Warning => 200,
            ObsLogLevel::Info => 300,
            ObsLogLevel::Debug => 400,
        }
    }

    /// The name of the level, as `{:?}` prints it.
    pub fn debug_name(&self) -> (r: &'static str)
        ensures
            r@ == log_level_name(*self),
    {
        match self {
            ObsLogLevel::Error => "Error",
            ObsLogLevel::Warning => "Warning",
            ObsLogLevel::Info => "Info",
            ObsLogLevel::Debug => "Debug",
        }
    }
}

/// Receives the messages that libobs logs.
pub trait ObsLogger: Send + core::fmt::Debug {
    fn log(&mut self, level: ObsLogLevel, msg: String);
}

/// The line a file logger writes for a message: the level in brackets, then the message.
pub open spec fn log_line_text(level: ObsLogLevel, msg: Seq<char>) -> Seq<char> {
    "["@ + log_level_name(level) + "] "@ + msg
}

/// Formats the line a file logger writes for a message.
pub fn log_line(level: ObsLogLevel, msg: &str) -> (r: String)
    ensures
        r@ == log_line_text(level, msg@),
{
    let mut line = String::from_str("[");
    line.append(level.debug_name());
    line.append("] ");
    line.append(msg);
    line
}

} // verus!
