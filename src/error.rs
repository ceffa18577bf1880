//! Errors reported while reading or writing metadata.
use vstd::prelude::*;

verus! {

/// A recoverable failure of a metadata operation.
#[derive(Debug, PartialEq, Eq)]
pub enum MetadataError {
    /// An algorithm token that names no supported checksum or codec.
    UnsupportedChecksumTypeError(String),
    /// A load-bearing element of a record was absent.
    MissingFieldError(&'static str),
    /// A required attribute of a structural element was absent.
    MissingAttributeError(&'static str),
    /// A document lacked its expected root element.
    MissingHeaderError,
    /// A numeric attribute or element held text that is not a decimal
    /// number that fits; the text is kept.
    IntFieldParseError(String),
    /// A file-kind token that names no known kind.
    UnsupportedFileTypeError(String),
    /// A document ended inside a record.
    TruncatedRecordError,
}

} // verus!
