//! Sizes of thumbnails.

use vstd::prelude::*;

verus! {

/// The side of a thumbnail: the given percentage of a side of the image,
/// rounded down; `None` where the product is too large for the type.
pub fn scaled_side(side: u32, percent: u32) -> (r: Option<u32>)
    ensures
        side * percent <= u32::MAX ==> r == Some((side * percent / 100) as u32),
        side * percent > u32::MAX ==> r is None,
{
    match side.checked_mul(percent) {
        Some(product) => Some(product / 100),
        None => None,
    }
}

} // verus!
