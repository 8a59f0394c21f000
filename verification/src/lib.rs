//! A verified span-export pipeline.
//!
//! The library covers the parts of a tracing shim that carry real logic:
//! resolving the collector endpoint and credential from startup input,
//! planning the exporter (dial target, TLS identity, authentication header,
//! resource attributes), batching sealed spans for export, guarding the
//! process-wide recorder against double installation, and draining the
//! buffer on shutdown. Network transport, the HTTP surface and the async
//! runtime live outside the library and hand it plain values.

pub mod batch;
pub mod bridge;
pub mod config;
pub mod errors;
pub mod exporter;
pub mod pipeline;
pub mod span;
