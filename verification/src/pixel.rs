//! Reconstruction of a pixel buffer from the bytes a filter chain left.

use vstd::prelude::*;
use crate::error::ConversionError;
use crate::filters::TerminalState;

verus! {

/// A pixel grid stored as interleaved RGB, 8 bits per channel, row-major.
/// Well-formedness ties the sample count to the dimensions; construction
/// through [`PixelBuffer::new`] fails rather than truncate or pad.
#[derive(Debug, PartialEq, Eq)]
pub struct PixelBuffer {
    pub width: u32,
    pub height: u32,
    pub samples: Vec<u8>,
}

impl PixelBuffer {
    /// The invariant every constructed buffer satisfies: exactly three
    /// samples per pixel.
    pub open spec fn wf(self) -> bool {
        self.samples@.len() == self.width as int * self.height as int * 3
    }

    /// Packs the given samples as a `width` by `height` RGB8 grid. Fails
    /// with `BufferSizeMismatch` unless the byte count is exactly
    /// width * height * 3.
    pub fn new(width: u32, height: u32, samples: Vec<u8>) -> (r: Result<
        PixelBuffer,
        ConversionError,
    >)
        ensures
            samples@.len() == width as int * height as int * 3 ==> (r matches Ok(p) && p
                == (PixelBuffer { width, height, samples })),
            samples@.len() != width as int * height as int * 3 ==> r == Err::<
                PixelBuffer,
                ConversionError,
            >(ConversionError::BufferSizeMismatch),
    {
        proof {
            assert(0 <= width as int * height as int <= u32::MAX as int * u32::MAX as int)
                by (nonlinear_arith)
                requires
                    0 <= width as int <= u32::MAX as int,
                    0 <= height as int <= u32::MAX as int,
            ;
            assert(usize::MAX <= u64::MAX);
        }
        let n: usize = samples.len();
        let pixels: Option<u64> = (width as u64).checked_mul(height as u64);
        let expected: Option<u64> = match pixels {
            Some(p) => p.checked_mul(3),
            None => None,
        };
        let fits: bool = match expected {
            Some(t) => n as u64 == t,
            None => false,
        };
        proof {
            assert(samples@.len() == width as int * height as int * 3 ==> fits);
        }
        if fits {
            Ok(PixelBuffer { width, height, samples })
        } else {
            Err(ConversionError::BufferSizeMismatch)
        }
    }
}

/// What image's autodetecting decoder makes of the given container bytes,
/// converted to RGB8: the dimensions and the interleaved samples, or
/// nothing when the bytes match no recognized container or are corrupt.
/// The outcome depends on the bytes alone.
pub uninterp spec fn decode_of(data: Seq<u8>) -> Option<(u32, u32, Seq<u8>)>;

/// Relies on `image::load_from_memory` and `DynamicImage::to_rgb8`: the
/// decoded image, converted to RGB8 (any alpha dropped), carries exactly
/// width * height * 3 samples.
#[verifier::external_body]
pub(crate) fn decode_rgb8(data: &Vec<u8>) -> (r: Result<PixelBuffer, ConversionError>)
    ensures
        r is Ok <==> decode_of(data@) is Some,
        r matches Ok(p) ==> decode_of(data@) == Some((p.width, p.height, p.samples@)),
        r matches Ok(p) ==> p.wf(),
        r matches Err(e) ==> e == ConversionError::DecodeError,
{
    match image::load_from_memory(data.as_slice()) {
        Ok(img) => {
            let rgb = img.to_rgb8();
            let (width, height) = (rgb.width(), rgb.height());
            Ok(PixelBuffer { width, height, samples: rgb.into_raw() })
        },
        Err(_) => Err(ConversionError::DecodeError),
    }
}

/// Turns the bytes a filter chain left, plus the declared dimensions, into
/// a pixel buffer. A raw sample grid is packed directly, with no codec
/// involved; an encoded container goes through the autodetecting decoder,
/// and the declared dimensions play no part.
pub fn reconstruct(bytes: Vec<u8>, width: u32, height: u32, terminal: TerminalState) -> (r: Result<
    PixelBuffer,
    ConversionError,
>)
    ensures
        terminal == TerminalState::RawSamples && bytes@.len() == width as int * height as int * 3
            ==> r == Ok::<PixelBuffer, ConversionError>(PixelBuffer { width, height, samples: bytes }),
        terminal == TerminalState::RawSamples && bytes@.len() != width as int * height as int * 3
            ==> r == Err::<PixelBuffer, ConversionError>(ConversionError::BufferSizeMismatch),
        terminal == TerminalState::EncodedContainer ==> (r is Ok <==> decode_of(bytes@) is Some),
        terminal == TerminalState::EncodedContainer ==> (r matches Ok(p) ==> decode_of(bytes@)
            == Some((p.width, p.height, p.samples@))),
        terminal == TerminalState::EncodedContainer ==> (r matches Err(e) ==> e
            == ConversionError::DecodeError),
        r matches Ok(p) ==> p.wf(),
{
    match terminal {
        TerminalState::RawSamples => PixelBuffer::new(width, height, bytes),
        TerminalState::EncodedContainer => decode_rgb8(&bytes),
    }
}

} // verus!
