//! A line-oriented HTTP proxy adapter: decode one request envelope, compose
//! the target URL under a fixed origin, and decide how the response is handed
//! back. Network and process I/O stay with the caller.

pub mod json;
pub mod envelope;
pub mod compose;
pub mod response;
pub mod error;
pub mod proxy;
