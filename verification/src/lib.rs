//! Client-side engine for a bidirectional control protocol spoken with a
//! long-lived child process over newline-delimited JSON.
//!
//! The crate verifies the protocol logic: line framing, message and control
//! demultiplexing, request/response correlation, callback registry dispatch,
//! and the construction of every outbound envelope.  Process management and
//! the asynchronous runtime around this logic are ordinary unverified code
//! that calls into the contracts stated here.

pub mod json;
pub mod strutil;
pub mod errors;
pub mod types;
pub mod message_parser;
pub mod transport;
pub mod hooks;
pub mod mcp_server;
pub mod query;
pub mod permissions;
pub mod extensions;
pub mod stream;
pub mod builders;
pub mod facade;
