//! Command protocol and render synchronisation for a single-window viewer.
//!
//! A peer process streams newline-delimited commands; the engine in this
//! crate frames the stream into lines, classifies each decoded command and
//! tells its driver, one request at a time, when to create the display surface,
//! when to wait for it to become ready and which payload to deliver.

pub mod fingerprint;
pub mod line_reader;
pub mod window;
pub mod command;
pub mod engine;
pub mod trace;

pub use fingerprint::hash_string;
