//! A small static-file HTTP server's decision logic: request parsing, response
//! framing, configuration handling, log line rendering and the accept/shutdown
//! life cycle, each stated as a contract over plain values.

pub mod arguments;
pub mod config;
pub mod environment;
pub mod errors;
pub mod event_loop;
pub mod log;
pub mod request;
pub mod response;
pub mod text;
