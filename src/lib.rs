//! Decoder for HPROF heap-profiler dump streams: the fixed header, the
//! length-prefixed record envelopes, the symbol records, and the rendering of
//! stack traces against the symbol tables built while streaming.
pub mod error;
pub mod bytes;
pub mod tag;
pub mod text;
pub mod records;
pub mod tables;
pub mod resolve;
pub mod driver;
pub mod laws;
