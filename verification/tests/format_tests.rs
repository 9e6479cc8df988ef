use file_converter::format::resolve_format;
use file_converter::{get_format, ConversionError, OutputFormat};

#[test]
fn resolver_maps_every_recognized_token() {
    assert_eq!(get_format("png"), Some(OutputFormat::Png));
    assert_eq!(get_format("gif"), Some(OutputFormat::Gif));
    assert_eq!(get_format("jpeg"), Some(OutputFormat::Jpeg));
    assert_eq!(get_format("jpg"), Some(OutputFormat::Jpeg));
    assert_eq!(get_format("webp"), Some(OutputFormat::WebP));
    assert_eq!(get_format("tiff"), Some(OutputFormat::Tiff));
    assert_eq!(get_format("bmp"), Some(OutputFormat::Bmp));
    assert_eq!(get_format("avif"), Some(OutputFormat::Avif));
}

#[test]
fn resolver_jpeg_and_jpg_share_a_variant() {
    assert_eq!(get_format("jpeg"), get_format("jpg"));
}

#[test]
fn resolver_rejects_unknown_tokens() {
    assert_eq!(get_format("svg"), None);
    assert_eq!(get_format(""), None);
    assert_eq!(get_format("PNG"), None);
    assert_eq!(get_format("jpeg "), None);
    assert_eq!(get_format("tif"), None);
}

#[test]
fn resolve_format_reports_the_offending_token() {
    assert_eq!(resolve_format("png"), Ok(OutputFormat::Png));
    assert_eq!(
        resolve_format("svg"),
        Err(ConversionError::UnsupportedFormat("svg".to_string()))
    );
}
