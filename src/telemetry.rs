use vstd::prelude::*;

use crate::config::{Configuration, Env};

verus! {

/// The most detailed level of log events that is written.
#[derive(Debug, Clone, Copy, PartialEq, Eq, Structural)]
pub enum LogLevel {
    Debug,
    Info,
}

/// How the process writes its logs. Every environment writes compact lines
/// with file, line number and thread id, and without the event target.
#[derive(Debug, Clone, Copy, PartialEq, Eq, Structural)]
pub struct LogSettings {
    pub max_level: LogLevel,
    /// Whether each event is written as a JSON object.
    pub json: bool,
}

/// Local runs log everything as text; the dev environment logs everything as
/// JSON; production logs from `Info` up as JSON.
pub open spec fn settings_for(env: Env) -> LogSettings {
    match env {
        Env::Local => LogSettings { max_level: LogLevel::Debug, json: false },
        Env::Dev => LogSettings { max_level: LogLevel::Debug, json: true },
        Env::Prod => LogSettings { max_level: LogLevel::Info, json: true },
    }
}

/// The log settings for the configured environment.
pub fn subscriber_settings(config: &Configuration) -> (r: LogSettings)
    ensures
        r == settings_for(config.env),
{
    match config.env {
        Env::Local => LogSettings { max_level: LogLevel::Debug, json: false },
        Env::Dev => LogSettings { max_level: LogLevel::Debug, json: true },
        Env::Prod => LogSettings { max_level: LogLevel::Info, json: true },
    }
}

} // verus!
