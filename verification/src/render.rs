//! The data of a BMP image: its two headers, the image that owns them, the
//! errors, and the operations of each.

use vstd::prelude::*;

verus! {

/// The file header: the first 14 bytes of a BMP file.
#[derive(Debug)]
pub struct BmpHEADER {
    /// The signature, `'B'` then `'M'`.
    pub header_field: Vec<char>,
    /// Length of the whole file in bytes.
    pub bmp_file_size: u32,
    /// Offset of the first pixel byte.
    pub starting_addr: u32,
}

/// What a [`BmpHEADER`] holds, as mathematical values.
#[verifier::ext_equal]
pub struct HeaderView {
    pub header_field: Seq<char>,
    pub bmp_file_size: u32,
    pub starting_addr: u32,
}

impl HeaderView {
    /// The signature is `'B'`, `'M'`.
    pub open spec fn wf(self) -> bool {
        self.header_field =~= seq!['B', 'M']
    }
}

impl View for BmpHEADER {
    type V = HeaderView;

    open spec fn view(&self) -> HeaderView {
        HeaderView {
            header_field: self.header_field@,
            bmp_file_size: self.bmp_file_size,
            starting_addr: self.starting_addr,
        }
    }
}

/// The DIB header (`BITMAPINFOHEADER`): the 40 bytes behind the file header.
#[derive(Debug)]
pub struct BmpDIBHEADER {
    /// Length of this header on disk, 40 once configured.
    pub header_size: u32,
    /// Horizontal extent in pixels.
    pub width: u32,
    /// Vertical extent in pixels.
    pub height: u32,
    /// Number of colour planes, always 1.
    pub color_planes: u8,
    /// Bits per pixel, 24 once configured.
    pub bits_per_pixel: u8,
    /// Compression scheme, always 0 (none).
    pub compression: u32,
    /// Length of the pixel array in bytes.
    pub image_size: u32,
    /// Horizontal resolution in pixels per metre.
    pub horizontal_res: u32,
    /// Vertical resolution in pixels per metre.
    pub vertical_res: u32,
    /// Number of palette entries, always 0.
    pub color_palette: u8,
    /// Number of important colours, always 0 (all of them).
    pub important_c: u8,
}

impl BmpDIBHEADER {
    /// The fields that no operation changes hold their fixed values.
    pub open spec fn wf(self) -> bool {
        &&& self.color_planes == 1
        &&& self.compression == 0
        &&& self.color_palette == 0
        &&& self.important_c == 0
    }
}

/// An image: both headers, their serialised forms, and the pixel bytes.
#[derive(Debug)]
pub struct BmpImageInfo {
    pub header: BmpHEADER,
    pub dib_header: BmpDIBHEADER,
    /// The 14 bytes of `header`, filled when the image is written.
    pub header_arr: Vec<u8>,
    /// The 40 bytes of `dib_header`, filled when the image is written.
    pub dib_header_arr: Vec<u8>,
    /// The pixel bytes, written as they are.
    pub pixel_array: Vec<u8>,
}

/// What a [`BmpImageInfo`] holds, as mathematical values.
#[verifier::ext_equal]
pub struct ImageView {
    pub header: HeaderView,
    pub dib_header: BmpDIBHEADER,
    pub header_arr: Seq<u8>,
    pub dib_header_arr: Seq<u8>,
    pub pixel_array: Seq<u8>,
}

impl View for BmpImageInfo {
    type V = ImageView;

    open spec fn view(&self) -> ImageView {
        ImageView {
            header: self.header@,
            dib_header: self.dib_header,
            header_arr: self.header_arr@,
            dib_header_arr: self.dib_header_arr@,
            pixel_array: self.pixel_array@,
        }
    }
}

/// The image and target of a write that was refused.
#[derive(Debug)]
pub struct ErrInfo {
    /// Path of the file that the write was aimed at.
    pub err_file: String,
    /// Why the write was refused.
    pub err_info: String,
    /// The file header at the time of the refusal.
    pub bmp_header: BmpHEADER,
    /// The DIB header at the time of the refusal.
    pub bmp_dib_header: BmpDIBHEADER,
}

/// What an [`ErrInfo`] holds, as mathematical values.
#[verifier::ext_equal]
pub struct ErrInfoView {
    pub err_file: Seq<char>,
    pub err_info: Seq<char>,
    pub bmp_header: HeaderView,
    pub bmp_dib_header: BmpDIBHEADER,
}

impl View for ErrInfo {
    type V = ErrInfoView;

    open spec fn view(&self) -> ErrInfoView {
        ErrInfoView {
            err_file: self.err_file@,
            err_info: self.err_info@,
            bmp_header: self.bmp_header@,
            bmp_dib_header: self.bmp_dib_header,
        }
    }
}

/// Makes `std::io::Error` known as a type: the error of the operating
/// system for a file that could not be created or written. It is carried
/// through as it is, and nothing is claimed of what it holds.
#[verifier::external_type_specification]
#[verifier::external_body]
pub struct ExIoError(std::io::Error);

/// Everything that can go wrong while an image is configured and written.
#[derive(Debug)]
pub enum BmpImageErrs {
    /// The file could not be created, or a write to it failed.
    FileError(std::io::Error),
    /// The write was refused because the target exists already.
    ErrCreating(ErrInfo),
    /// The image size was refused: it is odd, or leaves no room within 32
    /// bits for the headers in front of it. Carries the size as the DIB
    /// header holds it.
    InvalidImageSize(u32),
}

impl From<std::io::Error> for BmpImageErrs {
    /// An error of the operating system becomes a [`BmpImageErrs::FileError`].
    fn from(err: std::io::Error) -> (e: BmpImageErrs) {
        BmpImageErrs::FileError(err)
    }
}

impl vstd::std_specs::convert::FromSpecImpl<std::io::Error> for BmpImageErrs {
    open spec fn obeys_from_spec() -> bool {
        true
    }

    open spec fn from_spec(err: std::io::Error) -> BmpImageErrs {
        BmpImageErrs::FileError(err)
    }
}

/// Operations of the image.
pub trait BmpImageInfoFuncs: Sized {
    /// A fresh image of the given dimensions, without pixels.
    fn new_bmp(width: u32, height: u32) -> Self;

    /// Derives the size fields of both headers and takes the pixel bytes.
    fn configure_bmp(&mut self, pixel_array: Vec<u8>) -> Result<BmpImageInfo, BmpImageErrs>;

    /// Prepares the write to `filename`: refuses where `exists` says that the
    /// target is there already, and serialises both headers otherwise.
    fn write_bmp(&mut self, filename: String, exists: bool) -> Result<BmpImageInfo, BmpImageErrs>;
}

/// Operations of the file header.
pub trait BmpHeaderFuncs: Sized {
    /// A header with the signature and both numbers at zero.
    fn new_header() -> Self;

    /// Sets the file size and the pixel offset, and returns a copy.
    fn assign(&mut self, file_size: u32, starting_address: u32) -> BmpHEADER;
}

/// Operations of the DIB header.
pub trait BmpDibHeaderFuncs: Sized {
    /// A header for the given dimensions, one colour plane, all else zero.
    fn new_dib_header(width: u32, height: u32) -> Self;

    /// Sets the resolutions, the image size, the header size and the bit
    /// depth, and returns a copy.
    fn assign_dib_header(
        &mut self,
        h_res: u32,
        v_res: u32,
        image_size: u32,
        header_size: u32,
        bpp: u8,
    ) -> BmpDIBHEADER;
}

/// Construction of the record that a refused write carries.
pub trait ErrInfoFuncs: Sized {
    /// A record of the four values, as they are.
    fn set_vals(
        file: String,
        error_info: String,
        bmp_header: BmpHEADER,
        dib_header: BmpDIBHEADER,
    ) -> Self;
}

/// Construction of the errors.
pub trait BmpImageErrsFuncs {
    /// The error of a write that was refused, with its record.
    fn err_creating(
        file: String,
        error_info: String,
        header: BmpHEADER,
        dib_header: BmpDIBHEADER,
    ) -> BmpImageErrs;

    /// The error of an image size that cannot be stored.
    fn invalid_img_size(image_size: u32) -> BmpImageErrs;
}

} // verus!
