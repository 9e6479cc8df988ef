//! Access to the externally parsed document: pages in declared order and,
//! per page, image resources in declared order.
//!
//! The parser's result is pinned by a name, [`raw_pages_of`]: what lopdf
//! hands back for given document bytes, reduced to plain values. The
//! verified code then reads that result into the pipeline's pages, and
//! everything downstream is exact over the name.

use vstd::prelude::*;
use vstd::slice::slice_to_vec;
use crate::error::ConversionError;
use crate::locate::Page;
use crate::record::{classifies, EmbeddedImageRecord, FilterKind};

verus! {

/// One parser-level image, as a ghost value: declared width and height,
/// content bytes, and the declared filter names in order.
pub type ImageModel = (int, int, Seq<u8>, Seq<Seq<char>>);

/// One image resource as the document parser hands it over: declared
/// dimensions, raw content bytes and declared filter names, still unread.
pub struct RawImage {
    pub width: i64,
    pub height: i64,
    pub content: Vec<u8>,
    pub filters: Vec<String>,
}

/// One page as the document parser hands it over: its image resources in
/// declared order.
pub struct RawPage {
    pub images: Vec<RawImage>,
}

/// The ghost value of one parser-level image.
pub open spec fn raw_image_model(img: RawImage) -> ImageModel {
    (img.width as int, img.height as int, img.content@, img.filters.deep_view())
}

/// The ghost value of one parser-level page.
pub open spec fn raw_page_model(page: RawPage) -> Seq<ImageModel> {
    page.images@.map_values(|img: RawImage| raw_image_model(img))
}

/// The ghost value of the whole parser-level page list.
pub open spec fn raw_pages_model(pages: Seq<RawPage>) -> Seq<Seq<ImageModel>> {
    pages.map_values(|page: RawPage| raw_page_model(page))
}

/// Whether lopdf's reader accepts the given bytes as a well-formed
/// document. Acceptance depends on the bytes alone.
pub uninterp spec fn parses_as_document(bytes: Seq<u8>) -> bool;

/// What lopdf's parse makes of the given document bytes: the pages in
/// declared order, each page's image resources in declared order, each
/// image reduced to its plain fields. The result depends on the bytes
/// alone.
pub uninterp spec fn raw_pages_of(bytes: Seq<u8>) -> Seq<Seq<(int, int, Seq<u8>, Seq<Seq<char>>)>>;

/// Relies on `lopdf::Document::load_mem`, `Document::get_pages` and
/// `Document::get_page_images`: parsing succeeds exactly when the bytes
/// form a well-formed document, and then yields the declared pages with
/// their declared image resources, in order; a page whose resources
/// cannot be read carries none, and a missing filter entry stands for the
/// empty chain.
#[verifier::external_body]
fn load_raw_pages(bytes: &Vec<u8>) -> (r: Result<Vec<RawPage>, ConversionError>)
    ensures
        r is Ok <==> parses_as_document(bytes@),
        r matches Ok(pages) ==> raw_pages_model(pages@) == raw_pages_of(bytes@),
        r matches Err(e) ==> e == ConversionError::PdfParseError,
{
    let doc = match lopdf::Document::load_mem(bytes.as_slice()) {
        Ok(d) => d,
        Err(_) => return Err(ConversionError::PdfParseError),
    };
    let pages = doc.get_pages().into_values().map(|id| RawPage {
        images: doc.get_page_images(id).map(|imgs| imgs.into_iter().map(|img| RawImage {
            width: img.width,
            height: img.height,
            content: img.content.to_vec(),
            filters: img.filters.unwrap_or_default(),
        }).collect()).unwrap_or_default(),
    }).collect();
    Ok(pages)
}

/// How a record mirrors one parser-level image: the dimensions narrowed
/// the same way, the content equal, and each declared filter name
/// classified, in order.
pub open spec fn record_matches(rec: EmbeddedImageRecord, img: ImageModel) -> bool {
    &&& rec.width == img.0 as u32
    &&& rec.height == img.1 as u32
    &&& rec.content@ == img.2
    &&& rec.filters@.len() == img.3.len()
    &&& forall|k: int| 0 <= k < img.3.len() ==> classifies(img.3[k], #[trigger] rec.filters@[k])
}

/// How a page mirrors one parser-level page: record for record.
pub open spec fn page_matches(page: Page, imgs: Seq<ImageModel>) -> bool {
    &&& page.images@.len() == imgs.len()
    &&& forall|j: int| 0 <= j < imgs.len() ==> record_matches(#[trigger] page.images@[j], imgs[j])
}

/// How a page list mirrors the whole parsed model: page for page.
pub open spec fn pages_match(pages: Seq<Page>, model: Seq<Seq<ImageModel>>) -> bool {
    &&& pages.len() == model.len()
    &&& forall|i: int| 0 <= i < model.len() ==> page_matches(#[trigger] pages[i], model[i])
}

impl EmbeddedImageRecord {
    /// Reads one parser-level image into the pipeline's record: the
    /// declared dimensions narrowed to the record's width, and each
    /// filter name classified in order.
    pub fn from_raw(raw: &RawImage) -> (r: EmbeddedImageRecord)
        ensures
            record_matches(r, raw_image_model(*raw)),
    {
        let mut kinds: Vec<FilterKind> = Vec::new();
        let mut i: usize = 0;
        while i < raw.filters.len()
            invariant
                i <= raw.filters@.len(),
                kinds@.len() == i,
                forall|j: int| 0 <= j < i ==> classifies(raw.filters@[j]@, #[trigger] kinds@[j]),
            decreases raw.filters@.len() - i,
        {
            let name = raw.filters[i].clone();
            kinds.push(FilterKind::classify(name));
            i += 1;
        }
        EmbeddedImageRecord {
            width: #[verifier::truncate] (raw.width as u32),
            height: #[verifier::truncate] (raw.height as u32),
            content: slice_to_vec(raw.content.as_slice()),
            filters: kinds,
        }
    }
}

/// Parses document bytes into the pipeline's pages: exactly the pages the
/// parser declared, in order, each image resource read into its record.
pub fn parse_document(bytes: &Vec<u8>) -> (r: Result<Vec<Page>, ConversionError>)
    ensures
        r is Ok <==> parses_as_document(bytes@),
        r matches Ok(pages) ==> pages_match(pages@, raw_pages_of(bytes@)),
        r matches Err(e) ==> e == ConversionError::PdfParseError,
{
    let raws = match load_raw_pages(bytes) {
        Ok(p) => p,
        Err(e) => {
            return Err(e);
        },
    };
    let mut pages: Vec<Page> = Vec::new();
    let mut i: usize = 0;
    while i < raws.len()
        invariant
            i <= raws@.len(),
            pages@.len() == i,
            forall|k: int|
                0 <= k < i ==> page_matches(#[trigger] pages@[k], raw_page_model(raws@[k])),
        decreases raws@.len() - i,
    {
        let raw_page = &raws[i];
        let mut images: Vec<EmbeddedImageRecord> = Vec::new();
        let mut j: usize = 0;
        while j < raw_page.images.len()
            invariant
                j <= raw_page.images@.len(),
                images@.len() == j,
                forall|k: int|
                    0 <= k < j ==> record_matches(
                        #[trigger] images@[k],
                        raw_image_model(raw_page.images@[k]),
                    ),
            decreases raw_page.images@.len() - j,
        {
            images.push(EmbeddedImageRecord::from_raw(&raw_page.images[j]));
            j += 1;
        }
        pages.push(Page { images });
        i += 1;
    }
    proof {
        assert forall|k: int| 0 <= k < raws@.len() implies page_matches(
            #[trigger] pages@[k],
            raw_pages_of(bytes@)[k],
        ) by {
            assert(raw_pages_of(bytes@)[k] == raw_pages_model(raws@)[k]);
            assert(raw_pages_model(raws@)[k] == raw_page_model(raws@[k]));
        }
    }
    Ok(pages)
}

} // verus!
