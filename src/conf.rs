//! Process configuration: HTTP endpoint, database and logging settings.
use vstd::prelude::*;

use crate::link::{lower_of, lowercase, same_text};

verus! {

/// The whole configuration of the process.
#[derive(Debug)]
pub struct AppConf {
    pub name: String,
    pub id: i32,
    pub http: HttpServer,
    pub db: DBConf,
    pub log: LogConfig,
}

/// Where the HTTP server listens.
#[derive(Debug)]
pub struct HttpServer {
    pub endpoint: String,
}

impl HttpServer {
    /// The address to listen on.
    pub fn get_endpoint(&self) -> (r: &str)
        ensures
            r@ == self.endpoint@,
    {
        self.endpoint.as_str()
    }
}

/// How to reach the database.
#[derive(Debug)]
pub struct DBConf {
    pub dsn: String,
    pub max_conn: u32,
}

impl DBConf {
    /// The connection string.
    pub fn get_dsn(&self) -> (r: &str)
        ensures
            r@ == self.dsn@,
    {
        self.dsn.as_str()
    }
}

/// Where and how to log.
#[derive(Debug)]
pub struct LogConfig {
    pub file_name: String,
    pub dir: String,
    pub max_file: usize,
    pub time_format: String,
    pub format: String,
    pub level: String,
    pub output: String,
}

/// The verbosity of logging.
#[derive(Debug, Clone, Copy, PartialEq, Eq, Structural)]
pub enum LogLevel {
    Trace,
    Debug,
    Info,
    Warn,
    Error,
}

/// The level that a lower-case name selects; an unknown name selects `Info`.
pub open spec fn level_of(lowered: Seq<char>) -> LogLevel {
    if lowered == "trace"@ {
        LogLevel::Trace
    } else if lowered == "debug"@ {
        LogLevel::Debug
    } else if lowered == "warn"@ {
        LogLevel::Warn
    } else if lowered == "error"@ {
        LogLevel::Error
    } else {
        LogLevel::Info
    }
}

/// The level that a name, already in lower case, selects.
pub fn level_of_lowered(lowered: &str) -> (r: LogLevel)
    ensures
        r == level_of(lowered@),
{
    if same_text(lowered, "trace") {
        LogLevel::Trace
    } else if same_text(lowered, "debug") {
        LogLevel::Debug
    } else if same_text(lowered, "warn") {
        LogLevel::Warn
    } else if same_text(lowered, "error") {
        LogLevel::Error
    } else {
        LogLevel::Info
    }
}

impl LogConfig {
    /// The configured level, in any case; `Info` when the name is unknown.
    pub fn log_level(&self) -> (r: LogLevel)
        ensures
            r == level_of(lower_of(self.level@)),
    {
        let lowered = lowercase(self.level.as_str());
        level_of_lowered(lowered.as_str())
    }
}

} // verus!
