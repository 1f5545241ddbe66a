//! Request-authorization gateway filter.
//!
//! Every inbound request is held back while one authorization query is sent
//! to a configured backend; the reply decides whether the request is released
//! or answered with a fixed rejection.

pub mod config;
pub mod headers;
pub mod json;
pub mod protocol;
pub mod request;
pub mod store;
