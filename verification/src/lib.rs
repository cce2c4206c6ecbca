//! A compression bridge for hosts that speak in terminated byte strings.
//!
//! `codec` holds the compressor and its error type, `transport` the text-safe
//! encoding that carries binary data as a string, `bridge` the entry points
//! that a foreign caller reaches, and `timestamp` the rendering of log
//! timestamps.

pub mod codec;
pub mod transport;
pub mod bridge;
pub mod timestamp;
