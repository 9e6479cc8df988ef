//! The embedded-image record and the filter kinds its chain can name.

use vstd::prelude::*;
use crate::format::str_eq;

verus! {

/// One link of a PDF image's filter chain, in document-declared order.
/// Filters the pipeline has no handling for are carried verbatim, so that
/// the failure they cause can name them.
#[derive(Debug, PartialEq, Eq)]
pub enum FilterKind {
    /// A deflate/zlib-style decompression step.
    FlateDecode,
    /// A marker that the bytes form a complete JPEG container; the bytes
    /// themselves are left untouched.
    DCTDecode,
    /// A filter name with no defined handling.
    Unsupported(String),
}

/// How a filter name is read into a [`FilterKind`]: the two handled names
/// map to their variants, and any other name is carried unsupported.
pub open spec fn classifies(name: Seq<char>, k: FilterKind) -> bool {
    if name == "FlateDecode"@ {
        k == FilterKind::FlateDecode
    } else if name == "DCTDecode"@ {
        k == FilterKind::DCTDecode
    } else {
        k matches FilterKind::Unsupported(n) && n@ == name
    }
}

impl FilterKind {
    /// Reads one declared filter name into its kind.
    pub fn classify(name: String) -> (r: FilterKind)
        ensures
            classifies(name@, r),
    {
        if str_eq(name.as_str(), "FlateDecode") {
            FilterKind::FlateDecode
        } else if str_eq(name.as_str(), "DCTDecode") {
            FilterKind::DCTDecode
        } else {
            FilterKind::Unsupported(name)
        }
    }
}

/// One embedded image as a page declares it: its declared dimensions, its
/// raw content bytes, and its filter chain in declared order (possibly
/// empty).
#[derive(Debug, PartialEq, Eq)]
pub struct EmbeddedImageRecord {
    pub width: u32,
    pub height: u32,
    pub content: Vec<u8>,
    pub filters: Vec<FilterKind>,
}

} // verus!
