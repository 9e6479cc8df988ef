//! Selection of the first embedded image across a document's pages.

use vstd::prelude::*;
use crate::error::ConversionError;
use crate::record::EmbeddedImageRecord;

verus! {

/// One page of a document: its image resources, in declared order.
#[derive(Debug, PartialEq, Eq)]
pub struct Page {
    pub images: Vec<EmbeddedImageRecord>,
}

/// Every image resource of the document, pages in declared order and, on
/// each page, resources in declared order.
pub open spec fn flat_images(pages: Seq<Page>) -> Seq<EmbeddedImageRecord>
    decreases pages.len(),
{
    if pages.len() == 0 {
        Seq::empty()
    } else {
        pages[0].images@ + flat_images(pages.skip(1))
    }
}

/// When the first `k` pages hold no image, the flattened sequence is the
/// flattened remainder.
proof fn lemma_flat_skip_empty(pages: Seq<Page>, k: int)
    requires
        0 <= k <= pages.len(),
        forall|j: int| 0 <= j < k ==> #[trigger] pages[j].images@.len() == 0,
    ensures
        flat_images(pages) == flat_images(pages.skip(k)),
    decreases k,
{
    if k == 0 {
        assert(pages.skip(0) =~= pages);
    } else {
        assert(pages[0].images@.len() == 0);
        assert(pages[0].images@ + flat_images(pages.skip(1)) =~= flat_images(pages.skip(1)));
        assert(forall|j: int|
            0 <= j < k - 1 ==> #[trigger] pages.skip(1)[j].images@.len() == 0);
        lemma_flat_skip_empty(pages.skip(1), k - 1);
        assert(pages.skip(1).skip(k - 1) =~= pages.skip(k));
    }
}

/// A document with zero pages, or whose every page holds zero image
/// resources, has no embedded image at all.
pub proof fn lemma_all_pages_empty(pages: Seq<Page>)
    requires
        forall|j: int| 0 <= j < pages.len() ==> #[trigger] pages[j].images@.len() == 0,
    ensures
        flat_images(pages).len() == 0,
{
    lemma_flat_skip_empty(pages, pages.len() as int);
}

/// Selects the first image resource in flattened page-then-resource order,
/// or fails with `NoEmbeddedImage` when no page declares any.
pub fn locate(pages: &Vec<Page>) -> (r: Result<&EmbeddedImageRecord, ConversionError>)
    ensures
        flat_images(pages@).len() > 0 ==> (r matches Ok(rec) && *rec == flat_images(pages@)[0]),
        flat_images(pages@).len() == 0 ==> (r matches Err(e) && e
            == ConversionError::NoEmbeddedImage),
{
    let mut i: usize = 0;
    while i < pages.len()
        invariant
            i <= pages@.len(),
            forall|j: int| 0 <= j < i ==> #[trigger] pages@[j].images@.len() == 0,
        decreases pages@.len() - i,
    {
        if pages[i].images.len() > 0 {
            proof {
                lemma_flat_skip_empty(pages@, i as int);
                assert(pages@.skip(i as int)[0] == pages@[i as int]);
                assert(pages@.skip(i as int).skip(1) =~= pages@.skip(i as int + 1));
            }
            return Ok(&pages[i].images[0]);
        }
        i += 1;
    }
    proof {
        lemma_all_pages_empty(pages@);
    }
    Err(ConversionError::NoEmbeddedImage)
}

} // verus!
