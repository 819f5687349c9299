//! The request-handling core of a small addition service: routing, query
//! decoding, the step-by-step handling of one addition request against a
//! pooled connection, and the responses that come out of it.
//!
//! Nothing here performs I/O. The caller owns the socket, the pool and the
//! clock; it reports what happened as events and carries out the actions it
//! is handed back.

pub mod decode;
pub mod number;
pub mod text;
pub mod response;
pub mod router;
pub mod flow;
pub mod config;
