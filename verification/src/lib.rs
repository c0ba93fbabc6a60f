//! A minimal HTTP/1.1 protocol engine: it parses a raw request buffer,
//! routes GET and POST, and formats the exact response bytes.
//!
//! File and socket I/O stay outside the library; callers hand in the raw
//! request bytes and the outcome of the file operation, and get back the
//! complete wire response.

pub mod bytes;
pub mod engine;
pub mod laws;
pub mod parse;
pub mod response;
pub mod utf8;
