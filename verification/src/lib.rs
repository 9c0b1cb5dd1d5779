//! Core logic of a serial-port monitor: a fixed-length frame decoder for the
//! inbound byte stream, the connect/disconnect/record session state machine,
//! the per-iteration decisions of the background reader and recorder tasks,
//! and timestamp-based naming of rotating recording files.
//!
//! All device and file I/O lives outside this crate; the functions here work
//! on plain values (bytes, strings, timestamps) and are verified.

pub mod frame;
pub mod hex;
pub mod reader;
pub mod timefmt;
pub mod session;
