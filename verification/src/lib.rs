//! A small HTTP front end for a JavaScript runtime: the request-line parser,
//! the per-connection response state machine and the error type of the ops.
pub mod http;
