//! Top-level orchestration: the direct image-to-image path, and the
//! embedded-image path from document bytes to encoded output.

use vstd::prelude::*;
use crate::error::ConversionError;
use crate::filters::{
    apply_filters, lemma_classified_chain, spec_apply_filters, spec_apply_names, spec_terminal,
    spec_terminal_names, FilterOutcome, TerminalState,
};
use crate::format::{resolve_format, spec_resolve, OutputFormat};
use crate::locate::{flat_images, locate, Page};
use crate::pdf::{
    page_matches, pages_match, parse_document, parses_as_document, raw_pages_of, record_matches,
    ImageModel,
};
use crate::pixel::{decode_of, decode_rgb8, reconstruct, PixelBuffer};

verus! {

/// What image's `write_to` produces for an RGB8 buffer and an output
/// format: the encoded container bytes, or nothing when the buffer cannot
/// be written in that format. The outcome depends on the buffer and the
/// format alone.
pub uninterp spec fn encode_of(
    fmt: OutputFormat,
    width: u32,
    height: u32,
    samples: Seq<u8>,
) -> Option<Seq<u8>>;

/// Relies on `image::DynamicImage::write_to`, reached through
/// `ImageBuffer::from_raw`; the latter accepts the buffer whenever it
/// holds exactly width * height * 3 samples, which well-formedness grants.
#[verifier::external_body]
fn encode_rgb8(buf: PixelBuffer, fmt: OutputFormat) -> (r: Result<Vec<u8>, ConversionError>)
    requires
        buf.wf(),
    ensures
        r is Ok <==> encode_of(fmt, buf.width, buf.height, buf.samples@) is Some,
        r matches Ok(out) ==> encode_of(fmt, buf.width, buf.height, buf.samples@) == Some(out@),
        r matches Err(e) ==> e == ConversionError::EncodeError,
{
    let f = match fmt {
        OutputFormat::Png => image::ImageFormat::Png, OutputFormat::Gif => image::ImageFormat::Gif,
        OutputFormat::Jpeg => image::ImageFormat::Jpeg, OutputFormat::WebP => image::ImageFormat::WebP,
        OutputFormat::Tiff => image::ImageFormat::Tiff, OutputFormat::Bmp => image::ImageFormat::Bmp,
        OutputFormat::Avif => image::ImageFormat::Avif,
    };
    let img = image::RgbImage::from_raw(buf.width, buf.height, buf.samples)
        .ok_or(ConversionError::EncodeError)?;
    let mut out = std::io::Cursor::new(Vec::new());
    match image::DynamicImage::ImageRgb8(img).write_to(&mut out, f) {
        Ok(()) => Ok(out.into_inner()),
        Err(_) => Err(ConversionError::EncodeError),
    }
}

/// Where the embedded-image pipeline, run over parsed pages with a
/// resolved output format, must end.
pub enum ExtractOutcome {
    /// Success: the encoded output bytes.
    Produced(Seq<u8>),
    /// No page declares any image resource.
    NoImage,
    /// The selected image's chain names a filter with no defined handling.
    UnknownFilter(Seq<char>),
    /// A `FlateDecode` step met a malformed or truncated stream.
    BadStream,
    /// A raw sample grid whose byte count is not width * height * 3.
    SizeMismatch,
    /// An encoded container the autodetecting decoder rejects.
    Undecodable,
    /// A pixel buffer the encoder cannot write in the requested format.
    Unencodable,
}

/// The embedded-image pipeline over parsed pages, stage by stage: select
/// the first image, run its filter chain, rebuild the pixel buffer as the
/// terminal state directs, and encode it. The first failing stage decides
/// the outcome.
pub open spec fn spec_extract_first(pages: Seq<Page>, fmt: OutputFormat) -> ExtractOutcome {
    let flat = flat_images(pages);
    if flat.len() == 0 {
        ExtractOutcome::NoImage
    } else {
        let rec = flat[0];
        match spec_apply_filters(rec.content@, rec.filters@) {
            FilterOutcome::Unknown(name) => ExtractOutcome::UnknownFilter(name),
            FilterOutcome::Malformed => ExtractOutcome::BadStream,
            FilterOutcome::Applied(data) => match spec_terminal(rec.filters@) {
                TerminalState::RawSamples => {
                    if data.len() != rec.width as int * rec.height as int * 3 {
                        ExtractOutcome::SizeMismatch
                    } else {
                        spec_encode_step(fmt, rec.width, rec.height, data)
                    }
                },
                TerminalState::EncodedContainer => match decode_of(data) {
                    None => ExtractOutcome::Undecodable,
                    Some(t) => spec_encode_step(fmt, t.0, t.1, t.2),
                },
            },
        }
    }
}

/// The final stage: what encoding the reconstructed buffer yields.
pub open spec fn spec_encode_step(
    fmt: OutputFormat,
    width: u32,
    height: u32,
    samples: Seq<u8>,
) -> ExtractOutcome {
    match encode_of(fmt, width, height, samples) {
        None => ExtractOutcome::Unencodable,
        Some(out) => ExtractOutcome::Produced(out),
    }
}

/// How a pipeline outcome shows up in the returned value: success carries
/// the output bytes, and each failure carries its error, the unsupported
/// filter's name included.
pub open spec fn outcome_matches(o: ExtractOutcome, r: Result<Vec<u8>, ConversionError>) -> bool {
    match o {
        ExtractOutcome::Produced(out) => r matches Ok(v) && v@ == out,
        ExtractOutcome::NoImage => r == Err::<Vec<u8>, ConversionError>(
            ConversionError::NoEmbeddedImage,
        ),
        ExtractOutcome::UnknownFilter(name) => r matches Err(e) && (e matches
            ConversionError::UnsupportedFilter(s) && s@ == name),
        ExtractOutcome::BadStream => r == Err::<Vec<u8>, ConversionError>(
            ConversionError::FilterError,
        ),
        ExtractOutcome::SizeMismatch => r == Err::<Vec<u8>, ConversionError>(
            ConversionError::BufferSizeMismatch,
        ),
        ExtractOutcome::Undecodable => r == Err::<Vec<u8>, ConversionError>(
            ConversionError::DecodeError,
        ),
        ExtractOutcome::Unencodable => r == Err::<Vec<u8>, ConversionError>(
            ConversionError::EncodeError,
        ),
    }
}

/// Runs the embedded-image pipeline over already-parsed pages with an
/// already-resolved format: locate, filter chain, reconstruction, encode,
/// short-circuiting on the first failure. No partial output is ever
/// returned.
pub fn extract_first_embedded_image(pages: &Vec<Page>, fmt: OutputFormat) -> (r: Result<
    Vec<u8>,
    ConversionError,
>)
    ensures
        outcome_matches(spec_extract_first(pages@, fmt), r),
{
    let rec = match locate(pages) {
        Ok(rec) => rec,
        Err(e) => {
            return Err(e);
        },
    };
    let (data, terminal) = match apply_filters(rec) {
        Ok(p) => p,
        Err(e) => {
            return Err(e);
        },
    };
    let buf = match reconstruct(data, rec.width, rec.height, terminal) {
        Ok(b) => b,
        Err(e) => {
            return Err(e);
        },
    };
    encode_rgb8(buf, fmt)
}

/// Every image of the parsed model, pages then resources, in declared
/// order.
pub open spec fn flat_model(model: Seq<Seq<ImageModel>>) -> Seq<ImageModel>
    decreases model.len(),
{
    if model.len() == 0 {
        Seq::empty()
    } else {
        model[0] + flat_model(model.skip(1))
    }
}

/// The embedded-image pipeline read off the parsed model itself: the same
/// stages as [`spec_extract_first`], with the filter chain interpreted
/// from the declared names and the dimensions narrowed as the records
/// narrow them.
pub open spec fn spec_extract_model(
    model: Seq<Seq<ImageModel>>,
    fmt: OutputFormat,
) -> ExtractOutcome {
    let flat = flat_model(model);
    if flat.len() == 0 {
        ExtractOutcome::NoImage
    } else {
        let img = flat[0];
        match spec_apply_names(img.2, img.3) {
            FilterOutcome::Unknown(name) => ExtractOutcome::UnknownFilter(name),
            FilterOutcome::Malformed => ExtractOutcome::BadStream,
            FilterOutcome::Applied(data) => match spec_terminal_names(img.3) {
                TerminalState::RawSamples => {
                    if data.len() != (img.0 as u32) as int * (img.1 as u32) as int * 3 {
                        ExtractOutcome::SizeMismatch
                    } else {
                        spec_encode_step(fmt, img.0 as u32, img.1 as u32, data)
                    }
                },
                TerminalState::EncodedContainer => match decode_of(data) {
                    None => ExtractOutcome::Undecodable,
                    Some(t) => spec_encode_step(fmt, t.0, t.1, t.2),
                },
            },
        }
    }
}

/// Pages that mirror the parsed model flatten to matching records, one
/// for one.
proof fn lemma_flat_match(pages: Seq<Page>, model: Seq<Seq<ImageModel>>)
    requires
        pages_match(pages, model),
    ensures
        flat_images(pages).len() == flat_model(model).len(),
        forall|i: int|
            0 <= i < flat_model(model).len() ==> record_matches(
                #[trigger] flat_images(pages)[i],
                flat_model(model)[i],
            ),
    decreases pages.len(),
{
    if pages.len() > 0 {
        assert(page_matches(pages[0], model[0]));
        let pt = pages.skip(1);
        let mt = model.skip(1);
        assert forall|k: int| 0 <= k < mt.len() implies page_matches(#[trigger] pt[k], mt[k]) by {
            assert(pt[k] == pages[k + 1]);
            assert(mt[k] == model[k + 1]);
        }
        lemma_flat_match(pt, mt);
        let head: int = model[0].len() as int;
        assert forall|i: int| 0 <= i < flat_model(model).len() implies record_matches(
            #[trigger] flat_images(pages)[i],
            flat_model(model)[i],
        ) by {
            if i < head {
                assert(flat_images(pages)[i] == pages[0].images@[i]);
                assert(flat_model(model)[i] == model[0][i]);
            } else {
                assert(flat_images(pages)[i] == flat_images(pt)[i - head]);
                assert(flat_model(model)[i] == flat_model(mt)[i - head]);
            }
        }
    }
}

/// Pages that mirror the parsed model run the pipeline to the same
/// outcome: the classified records decide nothing that the declared
/// names, dimensions and content do not.
pub proof fn lemma_extract_matches_model(
    pages: Seq<Page>,
    model: Seq<Seq<ImageModel>>,
    fmt: OutputFormat,
)
    requires
        pages_match(pages, model),
    ensures
        spec_extract_first(pages, fmt) == spec_extract_model(model, fmt),
{
    lemma_flat_match(pages, model);
    if flat_model(model).len() > 0 {
        let rec = flat_images(pages)[0];
        let img = flat_model(model)[0];
        assert(record_matches(rec, img));
        lemma_classified_chain(rec.content@, rec.filters@, img.3);
    }
}

/// Converts a complete image container to the requested format: the token
/// is resolved first, then the bytes are decoded by the autodetecting
/// decoder, and the pixels re-encoded. No embedded-image logic is
/// involved.
pub fn convert_image(input_file: &Vec<u8>, output_format: &str) -> (r: Result<
    Vec<u8>,
    ConversionError,
>)
    ensures
        spec_resolve(output_format@) is None ==> (r matches Err(e) && (e matches
            ConversionError::UnsupportedFormat(t) && t@ == output_format@)),
        spec_resolve(output_format@) matches Some(f) ==> (match decode_of(input_file@) {
            None => r == Err::<Vec<u8>, ConversionError>(ConversionError::DecodeError),
            Some(d) => outcome_matches(spec_encode_step(f, d.0, d.1, d.2), r),
        }),
{
    let fmt = match resolve_format(output_format) {
        Ok(f) => f,
        Err(e) => {
            return Err(e);
        },
    };
    let buf = match decode_rgb8(input_file) {
        Ok(b) => b,
        Err(e) => {
            return Err(e);
        },
    };
    encode_rgb8(buf, fmt)
}

/// Converts the first image embedded in a PDF document to the requested
/// format. The token is resolved first; then the document is parsed, and
/// the pipeline runs over the pages the parse named by [`raw_pages_of`]
/// declared: the result is exactly what the pipeline's stages dictate for
/// that parse.
pub fn convert_pdf(input_file: &Vec<u8>, output_format: &str) -> (r: Result<
    Vec<u8>,
    ConversionError,
>)
    ensures
        spec_resolve(output_format@) is None ==> (r matches Err(e) && (e matches
            ConversionError::UnsupportedFormat(t) && t@ == output_format@)),
        spec_resolve(output_format@) is Some ==> (!parses_as_document(input_file@) ==> r == Err::<
            Vec<u8>,
            ConversionError,
        >(ConversionError::PdfParseError)),
        spec_resolve(output_format@) matches Some(f) ==> (parses_as_document(input_file@)
            ==> outcome_matches(spec_extract_model(raw_pages_of(input_file@), f), r)),
{
    let fmt = match resolve_format(output_format) {
        Ok(f) => f,
        Err(e) => {
            return Err(e);
        },
    };
    let pages = match parse_document(input_file) {
        Ok(p) => p,
        Err(e) => {
            return Err(e);
        },
    };
    let r = extract_first_embedded_image(&pages, fmt);
    proof {
        lemma_extract_matches_model(pages@, raw_pages_of(input_file@), fmt);
    }
    r
}

} // verus!
