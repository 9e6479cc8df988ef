use file_converter::{
    convert_pdf, extract_first_embedded_image, ConversionError, EmbeddedImageRecord, FilterKind,
    OutputFormat, Page,
};
use lopdf::{Dictionary, Document, Object, Stream};

fn rgb_samples(width: u32, height: u32) -> Vec<u8> {
    let mut out = Vec::new();
    for y in 0..height {
        for x in 0..width {
            for c in 0..3u32 {
                out.push(((x * 5 + y * 19 + c * 23) % 256) as u8);
            }
        }
    }
    out
}

fn zlib(data: &[u8]) -> Vec<u8> {
    let mut enc = flate2::write::ZlibEncoder::new(Vec::new(), flate2::Compression::default());
    std::io::Write::write_all(&mut enc, data).unwrap();
    enc.finish().unwrap()
}

fn jpeg_of(width: u32, height: u32) -> Vec<u8> {
    let img = image::RgbImage::from_raw(width, height, rgb_samples(width, height)).unwrap();
    let mut cur = std::io::Cursor::new(Vec::new());
    image::DynamicImage::ImageRgb8(img)
        .write_to(&mut cur, image::ImageFormat::Jpeg)
        .unwrap();
    cur.into_inner()
}

fn decode_via_image(bytes: &[u8]) -> (u32, u32, Vec<u8>) {
    let rgb = image::load_from_memory(bytes).unwrap().to_rgb8();
    (rgb.width(), rgb.height(), rgb.into_raw())
}

/// Builds a one-page document; when `image` is given it becomes the page's
/// only XObject resource: (width, height, filter names, content bytes).
fn build_pdf(image: Option<(i64, i64, Vec<&str>, Vec<u8>)>) -> Vec<u8> {
    let mut doc = Document::with_version("1.5");
    let pages_id = doc.new_object_id();

    let mut xobjects = Dictionary::new();
    if let Some((width, height, filters, content)) = image {
        let mut img_dict = Dictionary::new();
        img_dict.set("Type", Object::Name(b"XObject".to_vec()));
        img_dict.set("Subtype", Object::Name(b"Image".to_vec()));
        img_dict.set("Width", Object::Integer(width));
        img_dict.set("Height", Object::Integer(height));
        img_dict.set("ColorSpace", Object::Name(b"DeviceRGB".to_vec()));
        img_dict.set("BitsPerComponent", Object::Integer(8));
        if filters.len() == 1 {
            img_dict.set("Filter", Object::Name(filters[0].as_bytes().to_vec()));
        } else if filters.len() > 1 {
            let names: Vec<Object> = filters
                .iter()
                .map(|f| Object::Name(f.as_bytes().to_vec()))
                .collect();
            img_dict.set("Filter", Object::Array(names));
        }
        let stream = Stream::new(img_dict, content).with_compression(false);
        let img_id = doc.add_object(Object::Stream(stream));
        xobjects.set("Im0", Object::Reference(img_id));
    }

    let mut resources = Dictionary::new();
    resources.set("XObject", Object::Dictionary(xobjects));

    let mut page = Dictionary::new();
    page.set("Type", Object::Name(b"Page".to_vec()));
    page.set("Parent", Object::Reference(pages_id));
    page.set("Resources", Object::Dictionary(resources));
    page.set(
        "MediaBox",
        Object::Array(vec![0.into(), 0.into(), 612.into(), 792.into()]),
    );
    let page_id = doc.add_object(Object::Dictionary(page));

    let mut pages = Dictionary::new();
    pages.set("Type", Object::Name(b"Pages".to_vec()));
    pages.set("Kids", Object::Array(vec![Object::Reference(page_id)]));
    pages.set("Count", Object::Integer(1));
    doc.objects.insert(pages_id, Object::Dictionary(pages));

    let mut catalog = Dictionary::new();
    catalog.set("Type", Object::Name(b"Catalog".to_vec()));
    catalog.set("Pages", Object::Reference(pages_id));
    let catalog_id = doc.add_object(Object::Dictionary(catalog));
    doc.trailer.set("Root", Object::Reference(catalog_id));

    let mut out = Vec::new();
    doc.save_to(&mut out).unwrap();
    out
}

#[test]
fn dct_chain_jpeg_extracts_to_png() {
    let pdf = build_pdf(Some((64, 64, vec!["DCTDecode"], jpeg_of(64, 64))));
    let png = convert_pdf(&pdf, "png").unwrap();
    assert_eq!(image::guess_format(&png).unwrap(), image::ImageFormat::Png);
    let (w, h, _) = decode_via_image(&png);
    assert_eq!((w, h), (64, 64));
}

#[test]
fn flate_chain_packs_raw_samples() {
    let samples = rgb_samples(4, 4);
    let pdf = build_pdf(Some((4, 4, vec!["FlateDecode"], zlib(&samples))));
    let png = convert_pdf(&pdf, "png").unwrap();
    assert_eq!(decode_via_image(&png), (4, 4, samples));
}

#[test]
fn flate_chain_with_short_buffer_fails() {
    let short = vec![7u8; 47];
    let pdf = build_pdf(Some((4, 4, vec!["FlateDecode"], zlib(&short))));
    assert_eq!(convert_pdf(&pdf, "png"), Err(ConversionError::BufferSizeMismatch));
}

#[test]
fn unknown_filter_aborts_extraction() {
    let pdf = build_pdf(Some((4, 4, vec!["ASCIIHexDecode"], vec![0u8; 48])));
    assert_eq!(
        convert_pdf(&pdf, "png"),
        Err(ConversionError::UnsupportedFilter("ASCIIHexDecode".to_string()))
    );
}

#[test]
fn malformed_zlib_stream_fails_extraction() {
    let pdf = build_pdf(Some((4, 4, vec!["FlateDecode"], vec![1u8, 2, 3])));
    assert_eq!(convert_pdf(&pdf, "png"), Err(ConversionError::FilterError));
}

#[test]
fn page_without_image_resources_yields_no_embedded_image() {
    let pdf = build_pdf(None);
    assert_eq!(convert_pdf(&pdf, "png"), Err(ConversionError::NoEmbeddedImage));
}

#[test]
fn garbage_document_fails_to_parse() {
    let garbage = vec![0x25u8; 32];
    assert_eq!(convert_pdf(&garbage, "png"), Err(ConversionError::PdfParseError));
}

#[test]
fn bad_token_wins_over_bad_document() {
    let garbage = vec![0x25u8; 32];
    assert_eq!(
        convert_pdf(&garbage, "webm"),
        Err(ConversionError::UnsupportedFormat("webm".to_string()))
    );
}

fn one_page(rec: EmbeddedImageRecord) -> Vec<Page> {
    vec![Page { images: vec![rec] }]
}

#[test]
fn empty_chain_routes_to_raw_packing() {
    let samples = rgb_samples(4, 4);
    let rec = EmbeddedImageRecord {
        width: 4,
        height: 4,
        content: samples.clone(),
        filters: Vec::new(),
    };
    let png = extract_first_embedded_image(&one_page(rec), OutputFormat::Png).unwrap();
    assert_eq!(decode_via_image(&png), (4, 4, samples));
}

#[test]
fn chain_ending_in_flate_routes_to_raw_packing() {
    // Mixed order: DCTDecode earlier in the chain must not win.
    let samples = rgb_samples(4, 4);
    let rec = EmbeddedImageRecord {
        width: 4,
        height: 4,
        content: zlib(&samples),
        filters: vec![FilterKind::DCTDecode, FilterKind::FlateDecode],
    };
    let png = extract_first_embedded_image(&one_page(rec), OutputFormat::Png).unwrap();
    assert_eq!(decode_via_image(&png), (4, 4, samples));
}

#[test]
fn chain_ending_in_dct_routes_to_generic_decode() {
    // Mixed order the other way: the raw-size check must not apply.
    let jpeg = jpeg_of(4, 4);
    assert_ne!(jpeg.len(), 48);
    let rec = EmbeddedImageRecord {
        width: 4,
        height: 4,
        content: zlib(&jpeg),
        filters: vec![FilterKind::FlateDecode, FilterKind::DCTDecode],
    };
    let png = extract_first_embedded_image(&one_page(rec), OutputFormat::Png).unwrap();
    let (w, h, _) = decode_via_image(&png);
    assert_eq!((w, h), (4, 4));
}

#[test]
fn unknown_filter_name_is_carried_in_the_error() {
    let rec = EmbeddedImageRecord {
        width: 1,
        height: 1,
        content: vec![1, 2, 3],
        filters: vec![FilterKind::Unsupported("CCITTFaxDecode".to_string())],
    };
    assert_eq!(
        extract_first_embedded_image(&one_page(rec), OutputFormat::Png),
        Err(ConversionError::UnsupportedFilter("CCITTFaxDecode".to_string()))
    );
}

#[test]
fn zero_pages_yield_no_embedded_image() {
    assert_eq!(
        extract_first_embedded_image(&Vec::new(), OutputFormat::Png),
        Err(ConversionError::NoEmbeddedImage)
    );
}

#[test]
fn pages_with_empty_resource_lists_yield_no_embedded_image() {
    let pages = vec![Page { images: Vec::new() }, Page { images: Vec::new() }];
    assert_eq!(
        extract_first_embedded_image(&pages, OutputFormat::Png),
        Err(ConversionError::NoEmbeddedImage)
    );
}

#[test]
fn first_image_in_page_order_is_selected() {
    let first = rgb_samples(2, 2);
    let second = rgb_samples(3, 3);
    let pages = vec![
        Page { images: Vec::new() },
        Page {
            images: vec![
                EmbeddedImageRecord {
                    width: 2,
                    height: 2,
                    content: first.clone(),
                    filters: Vec::new(),
                },
                EmbeddedImageRecord {
                    width: 3,
                    height: 3,
                    content: second,
                    filters: Vec::new(),
                },
            ],
        },
    ];
    let png = extract_first_embedded_image(&pages, OutputFormat::Png).unwrap();
    assert_eq!(decode_via_image(&png), (2, 2, first));
}
