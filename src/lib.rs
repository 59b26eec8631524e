//! Flattening of nested JSON documents into flat rows, schema description of
//! sample documents, and the bookkeeping of a streaming pipeline that runs the
//! flattening per task.
pub mod json;
pub mod row;
pub mod options;
pub mod flatten;
pub mod property;
pub mod registry;
pub mod counter;
pub mod model;
pub mod message;
pub mod errcode;
pub mod link;
pub mod job;
pub mod conf;
pub mod types;
