//! Errors of the library's operations.

use vstd::prelude::*;
use crate::format::Format;

verus! {

/// Errors returned when a book cannot be opened or read.
#[derive(Debug, Clone, PartialEq, Eq)]
pub enum Error {
    /// The format is recognised but the operation does not handle it.
    UnsupportedFormat(Format),
    /// The path's extension names no known format.
    UnknownFormat(String),
    /// The file does not exist.
    FileNotFound(String),
    /// The container breaks the structure that locating the metadata needs.
    InvalidBook(String),
    /// Reading failed; the message describes the failure.
    Io(String),
    /// Any other failure.
    Other(String),
}

} // verus!
