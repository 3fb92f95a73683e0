//! The size fields: the length of the pixel array that the dimensions call
//! for, and the file size that follows from it.

use crate::layout::PIXEL_DATA_OFFSET;
use crate::render::{BmpImageErrs, BmpImageErrsFuncs};
use vstd::prelude::*;

verus! {

/// Pixels per metre written to both resolution fields (72 dots per inch).
pub const RESOLUTION: u32 = 0x002E23;

/// Bits per pixel of every image written here.
pub const BITS_PER_PIXEL: u8 = 24;

/// The length that the pixel array of a `width` by `height` image is given:
/// four bytes for every pixel.
pub open spec fn image_size_of(width: u32, height: u32) -> int {
    width * height * 4
}

/// The image size as the 32-bit field holds it: the length itself where it
/// fits, and the largest 32-bit value where it does not.
pub open spec fn stored_image_size(width: u32, height: u32) -> u32 {
    if image_size_of(width, height) <= u32::MAX {
        image_size_of(width, height) as u32
    } else {
        u32::MAX
    }
}

/// An image size is accepted when it is even and leaves room, within 32
/// bits, for the two headers in front of it.
pub open spec fn size_accepted(image_size: u32) -> bool {
    image_size % 2 == 0 && image_size + PIXEL_DATA_OFFSET <= u32::MAX
}

/// The stored size of a pair of dimensions is accepted exactly when the
/// pixel array and the headers together fit in 32 bits, and is then the
/// length of the pixel array itself. A length beyond 32 bits is stored as an
/// odd number, so the test for evenness turns it away.
pub proof fn lemma_accepted_sizes(width: u32, height: u32)
    ensures
        image_size_of(width, height) % 2 == 0,
        size_accepted(stored_image_size(width, height)) <==> image_size_of(width, height)
            + PIXEL_DATA_OFFSET <= u32::MAX,
        size_accepted(stored_image_size(width, height)) ==> stored_image_size(width, height)
            == image_size_of(width, height),
{
    let area: int = width * height;
    assert(image_size_of(width, height) == area * 4);
}

/// Computes the image size of a pair of dimensions as the field holds it.
pub fn pixel_array_size(width: u32, height: u32) -> (size: u32)
    ensures
        size == stored_image_size(width, height),
{
    assert(width * height <= 0xFFFF_FFFE_0000_0001) by (nonlinear_arith)
        requires
            width <= 0xFFFF_FFFF,
            height <= 0xFFFF_FFFF,
    ;
    let area: u64 = (width as u64) * (height as u64);
    if area > 0x3FFF_FFFF {
        u32::MAX
    } else {
        (area * 4) as u32
    }
}

/// The file size that goes with an image size: the two headers and the pixel
/// array. An image size that is odd, or so large that the file size leaves
/// 32 bits, is refused.
pub fn file_size_for(image_size: u32) -> (r: Result<u32, BmpImageErrs>)
    ensures
        match r {
            Ok(file_size) => size_accepted(image_size) && file_size == image_size
                + PIXEL_DATA_OFFSET,
            Err(e) => !size_accepted(image_size) && e == BmpImageErrs::InvalidImageSize(
                image_size,
            ),
        },
{
    if image_size % 2 != 0 || image_size > u32::MAX - PIXEL_DATA_OFFSET {
        Err(BmpImageErrs::invalid_img_size(image_size))
    } else {
        Ok(PIXEL_DATA_OFFSET + image_size)
    }
}

} // verus!
