//! Errors reported to callers, and the message that travels through a pipeline.
use vstd::prelude::*;

use crate::row::FlatRow;

verus! {

/// An error with its numeric code and message.
#[derive(Debug, PartialEq)]
pub struct AppErr {
    pub err_no: i64,
    pub err_msg: String,
}

impl AppErr {
    /// An error with the given code and message.
    pub fn new(err_no: i64, err_msg: &str) -> (r: AppErr)
        ensures
            r.err_no == err_no,
            r.err_msg@ == err_msg@,
    {
        AppErr { err_no, err_msg: err_msg.to_owned() }
    }
}

/// One raw message and the rows that flattening made of it.
#[derive(Debug)]
pub struct CoreMsg {
    pub raw_msg: String,
    pub raw_keys: Vec<String>,
    pub result: Vec<FlatRow>,
}

impl CoreMsg {
    /// A message that holds `raw_msg` and nothing else yet.
    pub fn new(raw_msg: String) -> (r: CoreMsg)
        ensures
            r.raw_msg@ == raw_msg@,
            r.raw_keys@.len() == 0,
            r.result@.len() == 0,
    {
        CoreMsg { raw_msg, raw_keys: Vec::new(), result: Vec::new() }
    }

    /// The raw text of the message.
    pub fn get_raw_msg(&self) -> (r: &str)
        ensures
            r@ == self.raw_msg@,
    {
        self.raw_msg.as_str()
    }

    /// The message with the given rows.
    pub fn with_result(self, result: Vec<FlatRow>) -> (r: CoreMsg)
        ensures
            r.result@ == result@,
            r.raw_msg == self.raw_msg,
            r.raw_keys == self.raw_keys,
    {
        CoreMsg { result, ..self }
    }

    /// The message with the given raw text.
    pub fn with_raw_msg(self, raw_msg: String) -> (r: CoreMsg)
        ensures
            r.raw_msg == raw_msg,
            r.result == self.result,
            r.raw_keys == self.raw_keys,
    {
        CoreMsg { raw_msg, ..self }
    }

    /// The message with the given allowed keys.
    pub fn with_raw_keys(self, raw_keys: Vec<String>) -> (r: CoreMsg)
        ensures
            r.raw_keys == raw_keys,
            r.raw_msg == self.raw_msg,
            r.result == self.result,
    {
        CoreMsg { raw_keys, ..self }
    }
}

} // verus!
