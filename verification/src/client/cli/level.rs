use vstd::prelude::*;
use crate::common::text::same_ignoring_ascii_case;

verus! {

/// How much is logged.
#[derive(Clone, Copy, Debug, PartialEq, Eq, Structural)]
pub enum LogLevel {
    Off,
    Error,
    Warn,
    Info,
    Debug,
    Trace,
}

/// The log level that a name stands for: `off`, `error`, `warn`, `info`,
/// `debug` or `trace`, in any case.
pub open spec fn level_named(s: Seq<char>) -> Option<LogLevel> {
    if same_ignoring_ascii_case("OFF"@, s) {
        Some(LogLevel::Off)
    } else if same_ignoring_ascii_case("ERROR"@, s) {
        Some(LogLevel::Error)
    } else if same_ignoring_ascii_case("WARN"@, s) {
        Some(LogLevel::Warn)
    } else if same_ignoring_ascii_case("INFO"@, s) {
        Some(LogLevel::Info)
    } else if same_ignoring_ascii_case("DEBUG"@, s) {
        Some(LogLevel::Debug)
    } else if same_ignoring_ascii_case("TRACE"@, s) {
        Some(LogLevel::Trace)
    } else {
        None
    }
}

/// `LevelFilter::from_str` of the `log` crate: the level whose name the
/// text is, the case of letters set aside, or nothing where it is none.
#[verifier::external_body]
pub(crate) fn level_from_str(s: &str) -> (level: Option<LogLevel>)
    ensures
        level == level_named(s@),
{
    match s.parse::<log::LevelFilter>() {
        Ok(log::LevelFilter::Off) => Some(LogLevel::Off),
        Ok(log::LevelFilter::Error) => Some(LogLevel::Error),
        Ok(log::LevelFilter::Warn) => Some(LogLevel::Warn),
        Ok(log::LevelFilter::Info) => Some(LogLevel::Info),
        Ok(log::LevelFilter::Debug) => Some(LogLevel::Debug),
        Ok(log::LevelFilter::Trace) => Some(LogLevel::Trace),
        Err(_) => None,
    }
}

impl LogLevel {
    /// The level's name.
    pub fn name(&self) -> (name: &'static str)
        ensures
            name@ == match *self {
                LogLevel::Off => "off"@,
                LogLevel::Error => "error"@,
                LogLevel::Warn => "warn"@,
                LogLevel::Info => "info"@,
                LogLevel::Debug => "debug"@,
                LogLevel::Trace => "trace"@,
            },
    {
        match self {
            LogLevel::Off => "off",
            LogLevel::Error => "error",
            LogLevel::Warn => "warn",
            LogLevel::Info => "info",
            LogLevel::Debug => "debug",
            LogLevel::Trace => "trace",
        }
    }
}

} // verus!
