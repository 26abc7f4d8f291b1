//! A multi-host static-file HTTP/1.1 server core: a byte-level request
//! parser, a virtual-host configuration and routing model, and the
//! response-construction pipeline (policy checks, resource resolution,
//! content negotiation, chunked transfer framing).
//!
//! All request/response decisions live here and are verified; sockets,
//! the filesystem, configuration loading and log sinks are driven by an
//! unverified shell that calls into this crate with plain values.

pub mod app;
pub mod basic;
pub mod bytes_util;
pub mod compress;
pub mod config;
pub mod dec;
pub mod listing;
pub mod mime;
pub mod percent;
pub mod pipeline;
pub mod request;
pub mod response;
pub mod route;
