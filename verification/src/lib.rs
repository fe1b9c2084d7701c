//! A verified client-side engine for the memcached ASCII protocol.
//!
//! The crate centers on the incremental response parsers: pure functions over
//! byte buffers that recognize complete protocol responses, report exactly how
//! many bytes each one occupies, and never mistake a partial read for an
//! error. Around them stand the request-frame builders, the receive buffer
//! that accumulates transport reads, and the per-command interpretation of
//! typed responses. Transport I/O itself stays outside this crate; callers
//! feed bytes in and take frames and typed results out.

pub mod buffer;
pub mod command;
pub mod kw;
pub mod metadump;
pub mod proto;
pub mod request;
pub mod response;
pub mod stats;
pub mod text;
