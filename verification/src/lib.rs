//! A format-agnostic serialization facade.
//!
//! A [`format::Format`] value names one supported data encoding. The library
//! resolves a format from a file extension or a path, classifies each format
//! as single-value or streamable, and dispatches serialization and
//! deserialization of values to the codec crate that implements the encoding,
//! wrapping every failure in a layered error taxonomy.

pub mod backend;
pub mod codec;
pub mod errors;
pub mod format;

pub use format::Format;
