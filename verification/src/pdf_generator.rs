//! Assembling the captured pages into one document.

use vstd::prelude::*;
use crate::error::{EbCaptureError, ErrorModel};

verus! {

/// Reason given when there is no page to assemble.
pub open spec fn nothing_to_assemble() -> Seq<char> {
    "no images to assemble"@
}

/// Admits a document of `page_count` page images to assembly. A document
/// without pages is refused.
pub fn create_pdf(page_count: usize) -> (r: Result<(), EbCaptureError>)
    ensures
        page_count > 0 ==> r is Ok,
        page_count == 0 ==> (r matches Err(e) && e@ == (ErrorModel::PdfGenerationFailure {
            reason: nothing_to_assemble(),
        })),
{
    if page_count == 0 {
        Err(EbCaptureError::PdfGenerationFailure { reason: "no images to assemble".to_owned() })
    } else {
        Ok(())
    }
}

} // verus!
