//! Transport-security bootstrap and bounded stream ingestion for a QUIC endpoint.
//!
//! - [`provision`]: certificate and private-key material, generated or decoded.
//! - [`stream`]: reading an inbound byte stream to its end under a size ceiling.
//! - [`escape`]: printable rendering of bytes for diagnostics.
pub mod escape;
pub mod provision;
pub mod stream;
