//! Job validation and conversion pipeline of a PNG/JPEG image converter.
//!
//! The library decides; the host acts. Whatever touches the file system is
//! put to the host as a [`host::Query`], and the answers come back in a
//! [`host::Findings`] record. Decoding and encoding run in memory.

pub mod codec;
pub mod convert;
pub mod error;
pub mod format;
pub mod guarantees;
pub mod host;
pub mod job;
pub mod paths;
pub mod validate;
