//! Conversion of raster images between encoded container formats, and
//! extraction of the first raster image embedded in a PDF document.
//!
//! The heart of the library is the embedded-image pipeline: walk the
//! document's pages in order, take the first image resource, run its filter
//! chain, rebuild a pixel buffer from the resulting bytes, and encode that
//! buffer in the requested output format.

pub mod error;
pub mod filters;
pub mod format;
pub mod locate;
pub mod pdf;
pub mod pipeline;
pub mod pixel;
pub mod record;

pub use error::ConversionError;
pub use filters::TerminalState;
pub use format::{get_format, OutputFormat};
pub use locate::Page;
pub use pipeline::{convert_image, convert_pdf, extract_first_embedded_image};
pub use pixel::PixelBuffer;
pub use record::{EmbeddedImageRecord, FilterKind};
