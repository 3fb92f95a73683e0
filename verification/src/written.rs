//! What holds of the file of every image that was configured and written.

use crate::layout::{
    file_bytes, le_u32, le_value, lemma_dib_header_fields, lemma_file_header_fields,
    lemma_file_length, lemma_le_u16_value, lemma_le_u32_value, DIB_HEADER_LEN, PIXEL_DATA_OFFSET,
};
use crate::render::ImageView;
use crate::size::{image_size_of, lemma_accepted_sizes, BITS_PER_PIXEL, RESOLUTION};
use vstd::prelude::*;

verus! {

/// The image that is constructed for the given dimensions, then configured
/// with `pixels`, then serialised for a write.
pub open spec fn written_image(width: u32, height: u32, pixels: Seq<u8>) -> ImageView {
    ImageView::blank(width, height).configure_accepted(pixels).serialised()
}

/// Where the pixel array and the headers of the dimensions fit in 32 bits,
/// the written image is a configured image of these dimensions, its pixel
/// bytes are the ones that were given, and what the write sends is its file.
pub proof fn lemma_written_image(width: u32, height: u32, pixels: Seq<u8>)
    requires
        image_size_of(width, height) + PIXEL_DATA_OFFSET <= u32::MAX,
    ensures
        written_image(width, height, pixels).configured(),
        written_image(width, height, pixels).dib_header.width == width,
        written_image(width, height, pixels).dib_header.height == height,
        written_image(width, height, pixels).pixel_array == pixels,
        written_image(width, height, pixels).stream() == file_bytes(
            written_image(width, height, pixels),
        ),
{
    lemma_accepted_sizes(width, height);
}

/// Bytes 10..14 of the file of a configured image spell 54, the offset of
/// the pixel bytes.
pub proof fn lemma_written_pixel_offset(image: ImageView)
    requires
        image.configured(),
    ensures
        file_bytes(image).subrange(10, 14) == le_u32(PIXEL_DATA_OFFSET),
        le_value(file_bytes(image).subrange(10, 14)) == 54,
{
    lemma_file_header_fields(image);
    lemma_le_u32_value(PIXEL_DATA_OFFSET);
}

/// Bytes 2..6 of the file of a configured image spell the file size: the
/// two headers and the pixel array that the dimensions call for.
pub proof fn lemma_written_file_size(image: ImageView)
    requires
        image.configured(),
    ensures
        le_value(file_bytes(image).subrange(2, 6)) == PIXEL_DATA_OFFSET + image_size_of(
            image.dib_header.width,
            image.dib_header.height,
        ),
{
    lemma_file_header_fields(image);
    lemma_le_u32_value(image.header.bmp_file_size);
}

/// Where the pixel bytes are as many as the image size says, the file size
/// in bytes 2..6 is 54 and the number of pixel bytes, which is the length
/// of the file.
pub proof fn lemma_written_file_size_is_length(image: ImageView)
    requires
        image.configured(),
        image.pixel_array.len() == image.dib_header.image_size,
    ensures
        le_value(file_bytes(image).subrange(2, 6)) == PIXEL_DATA_OFFSET + image.pixel_array.len(),
        le_value(file_bytes(image).subrange(2, 6)) == file_bytes(image).len(),
{
    lemma_written_file_size(image);
    lemma_file_length(image);
}

/// Bytes 34..38 of the file of a configured image spell the image size,
/// four times the width times the height.
pub proof fn lemma_written_image_size(image: ImageView)
    requires
        image.configured(),
    ensures
        le_value(file_bytes(image).subrange(34, 38)) == image.dib_header.width
            * image.dib_header.height * 4,
{
    lemma_dib_header_fields(image);
    lemma_le_u32_value(image.dib_header.image_size);
}

/// The other fields of the DIB header in the file of a configured image:
/// the header size 40 in bytes 14..18, the width in 18..22, the height in
/// 22..26, one plane in 26..28, 24 bits per pixel in 28..30, no compression
/// in 30..34, the resolution in 38..42 and in 42..46, and zero for the
/// palette and the important colours in 46..50 and 50..54.
pub proof fn lemma_written_constants(image: ImageView)
    requires
        image.configured(),
    ensures
        le_value(file_bytes(image).subrange(14, 18)) == 40,
        le_value(file_bytes(image).subrange(18, 22)) == image.dib_header.width,
        le_value(file_bytes(image).subrange(22, 26)) == image.dib_header.height,
        le_value(file_bytes(image).subrange(26, 28)) == 1,
        file_bytes(image)[26] == 0x01,
        file_bytes(image)[27] == 0x00,
        le_value(file_bytes(image).subrange(28, 30)) == 24,
        file_bytes(image)[28] == 0x18,
        file_bytes(image)[29] == 0x00,
        file_bytes(image).subrange(30, 34) == seq![0u8, 0u8, 0u8, 0u8],
        file_bytes(image).subrange(38, 42) == le_u32(0x002E23),
        le_value(file_bytes(image).subrange(38, 42)) == 0x002E23,
        file_bytes(image).subrange(42, 46) == le_u32(0x002E23),
        le_value(file_bytes(image).subrange(42, 46)) == 0x002E23,
        file_bytes(image).subrange(46, 50) == seq![0u8, 0u8, 0u8, 0u8],
        file_bytes(image).subrange(50, 54) == seq![0u8, 0u8, 0u8, 0u8],
{
    lemma_dib_header_fields(image);
    lemma_file_length(image);
    lemma_le_u32_value(DIB_HEADER_LEN);
    lemma_le_u32_value(image.dib_header.width);
    lemma_le_u32_value(image.dib_header.height);
    lemma_le_u32_value(RESOLUTION);
    lemma_le_u16_value(1);
    lemma_le_u16_value(BITS_PER_PIXEL as u16);
}

/// The header size stands between the file header and the dimensions. So
/// bytes 14..18 spell the width only of an image 40 pixels wide, and bytes
/// 18..22 the height only of a square image.
pub proof fn lemma_written_dimensions_shifted(image: ImageView)
    requires
        image.configured(),
    ensures
        le_value(file_bytes(image).subrange(14, 18)) == image.dib_header.width
            <==> image.dib_header.width == 40,
        le_value(file_bytes(image).subrange(18, 22)) == image.dib_header.height
            <==> image.dib_header.height == image.dib_header.width,
{
    lemma_written_constants(image);
}

} // verus!
