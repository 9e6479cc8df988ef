//! The failure values a conversion request can end in.

use vstd::prelude::*;

verus! {

/// Every way a conversion request can fail. Each failure is terminal: the
/// pipeline never retries, and no partial output accompanies an error.
#[derive(Debug, PartialEq, Eq)]
pub enum ConversionError {
    /// The requested format token is not in the recognized set.
    UnsupportedFormat(String),
    /// The bytes handed to the autodetecting decoder match no recognized
    /// container, or the container is corrupt.
    DecodeError,
    /// The pixel buffer could not be written in the requested format.
    EncodeError,
    /// The document bytes are not a well-formed PDF structure.
    PdfParseError,
    /// No image resource was found on any page of the document.
    NoEmbeddedImage,
    /// A decompression filter's input stream is malformed or truncated.
    FilterError,
    /// A filter chain link names a filter with no defined handling.
    UnsupportedFilter(String),
    /// The reconstructed raw byte count differs from width * height * 3.
    BufferSizeMismatch,
}

} // verus!
