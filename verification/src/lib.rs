//! A verified core for an HTTP forwarding gateway.
//!
//! The gateway accepts a description of an outbound request (target URL,
//! method, body, headers, upstream proxy), replays it through a client that
//! impersonates a browser's TLS fingerprint, and returns status, headers,
//! body and cookies in a uniform envelope.  This crate holds the request
//! pipeline's logic: profile selection, client configuration, method and
//! header normalization, cookie and response assembly, and the envelope.
//! The unverified binary around it only does the listening, the JSON
//! serialization and the asynchronous dispatch.

pub mod cookies;
pub mod envelope;
pub mod errors;
pub mod headers;
pub mod method;
pub mod pipeline;
pub mod profile;
pub mod response;
pub mod text;
