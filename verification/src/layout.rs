//! The byte layout of a BMP file: little-endian fields, the 14-byte file
//! header, the 40-byte DIB header, and the pixel bytes behind them.

use crate::render::{BmpDIBHEADER, BmpHEADER, BmpImageInfo, HeaderView, ImageView};
use vstd::prelude::*;

verus! {

/// Length of the file header on disk.
pub const FILE_HEADER_LEN: u32 = 14;

/// Length of the DIB header on disk.
pub const DIB_HEADER_LEN: u32 = 40;

/// Offset of the first pixel byte: both headers together.
pub const PIXEL_DATA_OFFSET: u32 = 54;

/// The two bytes of a 16-bit value, least significant first.
pub open spec fn le_u16(value: u16) -> Seq<u8> {
    seq![(value % 256) as u8, (value / 256) as u8]
}

/// The four bytes of a 32-bit value, least significant first.
pub open spec fn le_u32(value: u32) -> Seq<u8> {
    seq![
        (value % 256) as u8,
        (value / 256 % 256) as u8,
        (value / 65536 % 256) as u8,
        (value / 16777216) as u8,
    ]
}

/// The number that a run of bytes spells when read least significant first.
pub open spec fn le_value(bytes: Seq<u8>) -> nat
    decreases bytes.len(),
{
    if bytes.len() == 0 {
        0
    } else {
        bytes[0] as nat + 256 * le_value(bytes.skip(1))
    }
}

/// Reading back the two bytes of a 16-bit value gives the value.
pub proof fn lemma_le_u16_value(value: u16)
    ensures
        le_u16(value).len() == 2,
        le_value(le_u16(value)) == value,
{
    reveal_with_fuel(le_value, 3);
}

/// Reading back the four bytes of a 32-bit value gives the value.
pub proof fn lemma_le_u32_value(value: u32)
    ensures
        le_u32(value).len() == 4,
        le_value(le_u32(value)) == value,
{
    reveal_with_fuel(le_value, 5);
}

/// Appends the two little-endian bytes of `value` to `out`.
pub fn push_le_u16(out: &mut Vec<u8>, value: u16)
    ensures
        final(out)@ == old(out)@ + le_u16(value),
{
    out.push((value % 256) as u8);
    out.push((value / 256) as u8);
}

/// Appends the four little-endian bytes of `value` to `out`.
pub fn push_le_u32(out: &mut Vec<u8>, value: u32)
    ensures
        final(out)@ == old(out)@ + le_u32(value),
{
    out.push((value % 256) as u8);
    out.push((value / 256 % 256) as u8);
    out.push((value / 65536 % 256) as u8);
    out.push((value / 16777216) as u8);
}

/// The 14 bytes of a file header: the signature `'B'`, `'M'`, the file size,
/// four reserved zero bytes, and the offset of the pixel bytes.
pub open spec fn header_bytes(header: HeaderView) -> Seq<u8> {
    seq![0x42u8, 0x4Du8] + le_u32(header.bmp_file_size) + le_u32(0) + le_u32(header.starting_addr)
}

/// The 40 bytes of a DIB header, field by field in the order of the format.
/// Planes and bit depth take two bytes each, every other field four.
pub open spec fn dib_header_bytes(dib: BmpDIBHEADER) -> Seq<u8> {
    le_u32(dib.header_size) + le_u32(dib.width) + le_u32(dib.height)
        + le_u16(dib.color_planes as u16) + le_u16(dib.bits_per_pixel as u16)
        + le_u32(dib.compression) + le_u32(dib.image_size)
        + le_u32(dib.horizontal_res) + le_u32(dib.vertical_res)
        + le_u32(dib.color_palette as u32) + le_u32(dib.important_c as u32)
}

/// The whole file of an image: file header, DIB header, then the pixel bytes
/// as they are.
pub open spec fn file_bytes(image: ImageView) -> Seq<u8> {
    header_bytes(image.header) + dib_header_bytes(image.dib_header) + image.pixel_array
}

/// Serialises a file header.
pub fn encode_header(header: &BmpHEADER) -> (bytes: Vec<u8>)
    ensures
        bytes@ == header_bytes(header@),
        bytes@.len() == FILE_HEADER_LEN,
{
    let mut bytes: Vec<u8> = Vec::new();
    bytes.push(0x42);
    bytes.push(0x4D);
    push_le_u32(&mut bytes, header.bmp_file_size);
    push_le_u32(&mut bytes, 0);
    push_le_u32(&mut bytes, header.starting_addr);
    bytes
}

/// Serialises a DIB header.
pub fn encode_dib_header(dib: &BmpDIBHEADER) -> (bytes: Vec<u8>)
    ensures
        bytes@ == dib_header_bytes(*dib),
        bytes@.len() == DIB_HEADER_LEN,
{
    let mut bytes: Vec<u8> = Vec::new();
    push_le_u32(&mut bytes, dib.header_size);
    push_le_u32(&mut bytes, dib.width);
    push_le_u32(&mut bytes, dib.height);
    push_le_u16(&mut bytes, dib.color_planes as u16);
    push_le_u16(&mut bytes, dib.bits_per_pixel as u16);
    push_le_u32(&mut bytes, dib.compression);
    push_le_u32(&mut bytes, dib.image_size);
    push_le_u32(&mut bytes, dib.horizontal_res);
    push_le_u32(&mut bytes, dib.vertical_res);
    push_le_u32(&mut bytes, dib.color_palette as u32);
    push_le_u32(&mut bytes, dib.important_c as u32);
    bytes
}

/// Serialises a whole image: the byte stream of its file.
pub fn encode_file(image: &BmpImageInfo) -> (bytes: Vec<u8>)
    ensures
        bytes@ == file_bytes(image@),
        bytes@.len() == PIXEL_DATA_OFFSET + image.pixel_array@.len(),
{
    let mut bytes: Vec<u8> = encode_header(&image.header);
    let mut dib: Vec<u8> = encode_dib_header(&image.dib_header);
    bytes.append(&mut dib);
    let mut i: usize = 0;
    while i < image.pixel_array.len()
        invariant
            i <= image.pixel_array@.len(),
            bytes@ == header_bytes(image.header@) + dib_header_bytes(image.dib_header)
                + image.pixel_array@.take(i as int),
        decreases image.pixel_array@.len() - i,
    {
        bytes.push(image.pixel_array[i]);
        i += 1;
    }
    bytes
}

/// Both headers take their fixed lengths, whatever they hold.
pub proof fn lemma_header_lengths(header: HeaderView, dib: BmpDIBHEADER)
    ensures
        header_bytes(header).len() == FILE_HEADER_LEN,
        dib_header_bytes(dib).len() == DIB_HEADER_LEN,
{
}

/// Every file begins with the signature bytes 0x42, 0x4D.
pub proof fn lemma_file_signature(image: ImageView)
    ensures
        file_bytes(image).len() >= 2,
        file_bytes(image)[0] == 0x42,
        file_bytes(image)[1] == 0x4D,
{
}

/// A file is as long as the two headers and the pixel bytes together, and
/// the pixel bytes are its tail from offset 54 on: nothing follows them.
pub proof fn lemma_file_length(image: ImageView)
    ensures
        file_bytes(image).len() == PIXEL_DATA_OFFSET + image.pixel_array.len(),
        file_bytes(image).skip(PIXEL_DATA_OFFSET as int) == image.pixel_array,
{
    lemma_header_lengths(image.header, image.dib_header);
}

/// Where each field of the file header lies in the file.
pub proof fn lemma_file_header_fields(image: ImageView)
    ensures
        file_bytes(image).subrange(0, 2) == seq![0x42u8, 0x4Du8],
        file_bytes(image).subrange(2, 6) == le_u32(image.header.bmp_file_size),
        file_bytes(image).subrange(6, 10) == seq![0u8, 0u8, 0u8, 0u8],
        file_bytes(image).subrange(10, 14) == le_u32(image.header.starting_addr),
{
    lemma_header_lengths(image.header, image.dib_header);
}

/// Where each field of the DIB header lies in the file.
pub proof fn lemma_dib_header_fields(image: ImageView)
    ensures
        file_bytes(image).subrange(14, 18) == le_u32(image.dib_header.header_size),
        file_bytes(image).subrange(18, 22) == le_u32(image.dib_header.width),
        file_bytes(image).subrange(22, 26) == le_u32(image.dib_header.height),
        file_bytes(image).subrange(26, 28) == le_u16(image.dib_header.color_planes as u16),
        file_bytes(image).subrange(28, 30) == le_u16(image.dib_header.bits_per_pixel as u16),
        file_bytes(image).subrange(30, 34) == le_u32(image.dib_header.compression),
        file_bytes(image).subrange(34, 38) == le_u32(image.dib_header.image_size),
        file_bytes(image).subrange(38, 42) == le_u32(image.dib_header.horizontal_res),
        file_bytes(image).subrange(42, 46) == le_u32(image.dib_header.vertical_res),
        file_bytes(image).subrange(46, 50) == le_u32(image.dib_header.color_palette as u32),
        file_bytes(image).subrange(50, 54) == le_u32(image.dib_header.important_c as u32),
{
    lemma_header_lengths(image.header, image.dib_header);
}

} // verus!
