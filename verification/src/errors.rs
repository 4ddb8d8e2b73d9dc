//! The layered error taxonomy.
//!
//! Each layer adds exactly one failure mode over the layer beneath it:
//! resolution errors say that no format could be determined, codec errors
//! carry the failure of one backend crate, and the unsupported-operation
//! error says that a many-value operation was asked of a single-value-only
//! format. Every error carries the full underlying error value, never a
//! stringified summary, so callers can match on the root cause.

use crate::format::Format;
use vstd::prelude::*;

verus! {

/// A record-oriented input held no record at all, where at least one was
/// expected. Distinct from a malformed input, which surfaces as the
/// backend's own error.
#[derive(Clone, Copy, Debug, PartialEq, Eq, Structural, Hash, PartialOrd, Ord)]
pub struct ItemNotFoundError;

/// A many-value operation was invoked on a single-value-only format.
#[derive(Clone, Copy, Debug, PartialEq, Eq, Structural, Hash)]
pub struct UnsupportedFormatError {
    /// The format that does not support the operation.
    pub format: Format,
}

/// A path had no extension, so no format could be inferred from it.
#[derive(Clone, Debug, PartialEq, Eq, Hash)]
pub struct PathHasNoExtensionError {
    /// The offending path.
    pub path: String,
}

/// An extension string is not in the literal set of recognized extensions.
#[derive(Clone, Debug, PartialEq, Eq, Hash)]
pub struct UnrecognizedExtensionError {
    /// The offending extension.
    pub extension: String,
}

/// Failure to resolve a format from a path: either the path has no
/// extension at all, or its extension is not a recognized one. The two
/// kinds are never conflated.
#[derive(Clone, Debug, PartialEq, Eq, Hash)]
pub enum TryFromPathError {
    PathHasNoExtension(PathHasNoExtensionError),
    UnrecognizedExtension(UnrecognizedExtensionError),
}

/// Failure of a single-value serialization, one variant per backend crate.
#[derive(Debug)]
pub enum SerializeOneError {
    SerdeJson(serde_json::Error),
    SerdeJsonlines(std::io::Error),
    SerdeYaml(serde_yaml::Error),
    QuickXml(quick_xml::SeError),
    Toml(toml::ser::Error),
    Csv(csv::Error),
    FromUtf8(std::string::FromUtf8Error),
}

/// Failure of a single-value deserialization: one variant per backend
/// crate, plus [`ItemNotFoundError`] for a record-oriented input that held
/// no record.
#[derive(Debug)]
pub enum DeserializeOneError {
    SerdeJson(serde_json::Error),
    SerdeJsonlines(std::io::Error),
    SerdeYaml(serde_yaml::Error),
    QuickXml(quick_xml::DeError),
    Toml(toml::de::Error),
    Csv(csv::Error),
    ItemNotFound(ItemNotFoundError),
}

/// Failure of a many-value serialization: the unsupported-operation error,
/// or the failure of one of the streamable backends.
#[derive(Debug)]
pub enum SerializeManyError {
    UnsupportedFormat(UnsupportedFormatError),
    SerdeJsonlines(std::io::Error),
    Csv(csv::Error),
    FromUtf8(std::string::FromUtf8Error),
}

/// Failure to begin a many-value deserialization. Individual records fail
/// independently and carry their own [`DeserializeOneError`]; the whole
/// operation is refused only for a single-value-only format.
#[derive(Clone, Copy, Debug, PartialEq, Eq, Structural, Hash)]
pub enum DeserializeManyError {
    UnsupportedFormat(UnsupportedFormatError),
}

} // verus!
