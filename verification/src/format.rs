//! Resolution of a format token to an output container kind.

use vstd::prelude::*;
use vstd::string::StringExecFns;
use crate::error::ConversionError;

verus! {

broadcast use vstd::string::group_string_axioms;

/// The output container kinds a conversion can target.
#[derive(Debug, Clone, Copy, PartialEq, Eq, Structural)]
pub enum OutputFormat {
    Png,
    Gif,
    Jpeg,
    WebP,
    Tiff,
    Bmp,
    Avif,
}

/// Relies on `<str as PartialEq>::eq`: two string slices compare equal
/// exactly when they hold the same characters.
#[verifier::external_body]
pub(crate) fn str_eq(a: &str, b: &str) -> (r: bool)
    ensures
        r == (a@ == b@),
{
    a == b
}

/// The exact, case-sensitive mapping from a format token to an output
/// format. `jpeg` and `jpg` are the only two tokens that share a variant;
/// every token outside the recognized set maps to `None`.
pub open spec fn spec_resolve(token: Seq<char>) -> Option<OutputFormat> {
    if token == "png"@ {
        Some(OutputFormat::Png)
    } else if token == "gif"@ {
        Some(OutputFormat::Gif)
    } else if token == "jpeg"@ || token == "jpg"@ {
        Some(OutputFormat::Jpeg)
    } else if token == "webp"@ {
        Some(OutputFormat::WebP)
    } else if token == "tiff"@ {
        Some(OutputFormat::Tiff)
    } else if token == "bmp"@ {
        Some(OutputFormat::Bmp)
    } else if token == "avif"@ {
        Some(OutputFormat::Avif)
    } else {
        None
    }
}

/// Maps a format token to its output format, or `None` for a token outside
/// the recognized set.
pub fn get_format(input_format: &str) -> (r: Option<OutputFormat>)
    ensures
        r == spec_resolve(input_format@),
{
    if str_eq(input_format, "png") {
        Some(OutputFormat::Png)
    } else if str_eq(input_format, "gif") {
        Some(OutputFormat::Gif)
    } else if str_eq(input_format, "jpeg") || str_eq(input_format, "jpg") {
        Some(OutputFormat::Jpeg)
    } else if str_eq(input_format, "webp") {
        Some(OutputFormat::WebP)
    } else if str_eq(input_format, "tiff") {
        Some(OutputFormat::Tiff)
    } else if str_eq(input_format, "bmp") {
        Some(OutputFormat::Bmp)
    } else if str_eq(input_format, "avif") {
        Some(OutputFormat::Avif)
    } else {
        None
    }
}

/// Like [`get_format`], but a failed resolution carries the offending token
/// in the error, as the conversion pipeline reports it.
pub fn resolve_format(token: &str) -> (r: Result<OutputFormat, ConversionError>)
    ensures
        spec_resolve(token@) matches Some(f) ==> r == Ok::<OutputFormat, ConversionError>(f),
        spec_resolve(token@) is None ==> (r matches Err(e) && (e matches ConversionError::UnsupportedFormat(t)
            && t@ == token@)),
{
    match get_format(token) {
        Some(f) => Ok(f),
        None => Err(ConversionError::UnsupportedFormat(String::from_str(token))),
    }
}

/// A token is recognized when it is one of the eight members of the fixed
/// token set.
pub open spec fn recognized_token(token: Seq<char>) -> bool {
    token == "png"@ || token == "gif"@ || token == "jpeg"@ || token == "jpg"@ || token == "webp"@
        || token == "tiff"@ || token == "bmp"@ || token == "avif"@
}

/// Every recognized token resolves to exactly one output format and every
/// other token resolves to none; `jpeg` and `jpg` resolve to the same
/// variant, and they are the only two distinct tokens that do.
pub proof fn lemma_resolver_total()
    ensures
        forall|t: Seq<char>| #[trigger] spec_resolve(t) is Some <==> recognized_token(t),
        spec_resolve("jpeg"@) == spec_resolve("jpg"@),
        spec_resolve("jpeg"@) == Some(OutputFormat::Jpeg),
        forall|t1: Seq<char>, t2: Seq<char>|
            recognized_token(t1) && recognized_token(t2) && t1 != t2 && spec_resolve(t1)
                == spec_resolve(t2) ==> (t1 == "jpeg"@ || t1 == "jpg"@) && (t2 == "jpeg"@ || t2
                == "jpg"@),
{
    reveal_strlit("png");
    reveal_strlit("gif");
    reveal_strlit("jpeg");
    reveal_strlit("jpg");
    reveal_strlit("webp");
    reveal_strlit("tiff");
    reveal_strlit("bmp");
    reveal_strlit("avif");
    assert("png"@.len() == 3 && "gif"@.len() == 3 && "jpg"@.len() == 3 && "bmp"@.len() == 3);
    assert("jpeg"@.len() == 4 && "webp"@.len() == 4 && "tiff"@.len() == 4 && "avif"@.len() == 4);
    assert("png"@[0] == 'p' && "gif"@[0] == 'g' && "jpg"@[0] == 'j' && "bmp"@[0] == 'b');
    assert("jpeg"@[0] == 'j' && "webp"@[0] == 'w' && "tiff"@[0] == 't' && "avif"@[0] == 'a');
}

} // verus!
