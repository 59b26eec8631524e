//! Request payloads of the task service and the options they carry.
use vstd::prelude::*;

use crate::flatten::JsonParser;
use crate::json::JsonValue;
use crate::options::{defaults_of, set_of, Options, ParserOptions};

verus! {

/// The options of a task's flattening, as stored with the task.
#[derive(Debug)]
pub struct JsonParserOpt {
    pub max_depth: i32,
    pub sep: String,
    pub keys: Vec<String>,
    pub ignore: Vec<String>,
    pub fold: Vec<String>,
    pub default_value: Vec<(String, JsonValue)>,
    pub strict_mode: bool,
}

/// The model of the options that a stored configuration describes.
pub open spec fn options_of(
    max_depth: i32,
    sep: Seq<char>,
    keys: Seq<String>,
    ignore: Seq<String>,
    fold: Seq<String>,
    default_value: Seq<(String, JsonValue)>,
    strict: bool,
) -> Options {
    Options {
        sep,
        max_depth: max_depth as int,
        fold: set_of(fold),
        ignore: set_of(ignore),
        default_value: defaults_of(default_value),
        strict,
        keys: set_of(keys),
    }
}

impl JsonParserOpt {
    /// The engine for these options.
    pub fn to_parser(self) -> (r: JsonParser)
        ensures
            r.0@ == options_of(
                self.max_depth,
                self.sep@,
                self.keys@,
                self.ignore@,
                self.fold@,
                self.default_value@,
                self.strict_mode,
            ),
    {
        let o = ParserOptions::fmt().with_sep(self.sep.as_str()).with_strict_mode(
            self.strict_mode,
        ).with_fold(self.fold).with_ignore(self.ignore).with_max_depth(self.max_depth).with_keys(
            self.keys,
        ).with_default_value(self.default_value);
        o.init()
    }

    /// The separator.
    pub fn get_sep(&self) -> (r: &str)
        ensures
            r@ == self.sep@,
    {
        self.sep.as_str()
    }
}

/// A sample document to flatten with the given options.
#[derive(Debug)]
pub struct ParserPlainTextRequest {
    pub max_depth: i32,
    pub sep: String,
    pub keys: Vec<String>,
    pub ignore: Vec<String>,
    pub fold: Vec<String>,
    pub default_value: Vec<(String, JsonValue)>,
    pub strict_mode: bool,
    pub debug_text: JsonValue,
}

impl ParserPlainTextRequest {
    /// The separator.
    pub fn get_sep(&self) -> (r: &str)
        ensures
            r@ == self.sep@,
    {
        self.sep.as_str()
    }

    /// The engine for the requested options.
    pub fn to_parser_json_parser(self) -> (r: JsonParser)
        ensures
            r.0@ == options_of(
                self.max_depth,
                self.sep@,
                self.keys@,
                self.ignore@,
                self.fold@,
                self.default_value@,
                self.strict_mode,
            ),
    {
        let o = ParserOptions::fmt().with_sep(self.sep.as_str()).with_strict_mode(
            self.strict_mode,
        ).with_fold(self.fold).with_ignore(self.ignore).with_max_depth(self.max_depth).with_keys(
            self.keys,
        ).with_default_value(self.default_value);
        o.init()
    }
}

/// A sample document to describe, with an optional separator.
#[derive(Debug)]
pub struct PropertyPlainTextRequest {
    pub plain_text: JsonValue,
    pub sep: Option<String>,
}

impl PropertyPlainTextRequest {
    /// The requested separator, `_` when none is given.
    pub fn get_sep(&self) -> (r: &str)
        ensures
            r@ == (match self.sep {
                Some(s) => s@,
                None => "_"@,
            }),
    {
        match &self.sep {
            Some(sep) => sep.as_str(),
            None => "_",
        }
    }

    /// An engine with the requested separator and otherwise default options.
    pub fn to_json_parser(&self) -> (r: JsonParser)
        ensures
            r.0@.sep == (match self.sep {
                Some(s) => s@,
                None => "_"@,
            }),
            r.0@.max_depth == 0,
            !r.0@.strict,
            r.0@.fold.is_empty(),
            r.0@.ignore.is_empty(),
            r.0@.keys.is_empty(),
            r.0@.default_value.is_empty(),
    {
        ParserOptions::fmt().with_sep(self.get_sep()).init()
    }
}

/// A task to fetch.
#[derive(Debug, Clone, Copy, PartialEq, Eq, Structural)]
pub struct FetchTaskRequest {
    pub id: i64,
}

/// A node of a property tree as a client sends it.
#[derive(Debug)]
pub struct PropertyItem {
    pub node_name: String,
    pub value_type: String,
    pub op: String,
    pub props: Vec<PropertyItem>,
}

/// A node of a property tree in a request.
#[derive(Debug)]
pub struct PropertyItemRequest {
    pub node_name: String,
    pub value_type: String,
    pub op: String,
    pub props: Vec<PropertyItemRequest>,
}

/// A Kafka source configuration.
#[derive(Debug)]
pub struct KafkaSrcConfig {
    pub broker: String,
    pub topic: String,
}

/// A Kafka sink configuration.
#[derive(Debug)]
pub struct KafkaDstConfig {
    pub broker: String,
}

/// A request for the topics that a Kafka cluster offers.
#[derive(Debug)]
pub struct KafkaTopicRequest {
    pub params: String,
}

/// A request to count tasks, of one status or of all.
#[derive(Debug, Clone, Copy, PartialEq, Eq, Structural)]
pub struct TaskCountRequest {
    pub status: Option<i32>,
}

/// A request for a page of tasks with one status.
#[derive(Debug, Clone, Copy, PartialEq, Eq, Structural)]
pub struct TaskListRequest {
    pub status: i32,
    pub page_size: i32,
    pub page: i32,
}

/// A request to check a Kafka connection.
#[derive(Debug)]
pub struct KafkaConnectRequest {
    pub brokers: Vec<String>,
    pub topic: Option<String>,
}

/// A request to start a task.
#[derive(Debug, Clone, Copy, PartialEq, Eq, Structural)]
pub struct StartTaskRequest {
    pub id: i64,
}

/// A request to stop a task.
#[derive(Debug, Clone, Copy, PartialEq, Eq, Structural)]
pub struct StopTaskRequest {
    pub id: i64,
}

/// A request for the health of a task.
#[derive(Debug, Clone, Copy, PartialEq, Eq, Structural)]
pub struct TaskHealthCheckRequest {
    pub id: i64,
}

impl TaskHealthCheckRequest {
    /// The task asked about.
    pub fn get_id(&self) -> (r: i64)
        ensures
            r == self.id,
    {
        self.id
    }
}

/// A request for the system's load.
#[derive(Debug, Clone, Copy, PartialEq, Eq, Structural)]
pub struct SystemMonitorRequest {}

/// A request for a page of a task's log.
#[derive(Debug, Clone, Copy, PartialEq, Eq, Structural)]
pub struct FetchTaskLogListRequest {
    pub task_id: i64,
    pub page: i64,
    pub page_size: i64,
}

/// A request to count a task's log entries.
#[derive(Debug, Clone, Copy, PartialEq, Eq, Structural)]
pub struct TaskLogCountRequest {
    pub task_id: i64,
}

} // verus!
