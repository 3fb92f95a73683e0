//! The operations of the headers, the image and the errors.

use crate::layout::{
    dib_header_bytes, encode_dib_header, encode_header, file_bytes, header_bytes, DIB_HEADER_LEN,
    PIXEL_DATA_OFFSET,
};
use crate::render::{
    BmpDIBHEADER, BmpDibHeaderFuncs, BmpHEADER, BmpHeaderFuncs, BmpImageErrs, BmpImageErrsFuncs,
    BmpImageInfo, BmpImageInfoFuncs, ErrInfo, ErrInfoFuncs, ErrInfoView, HeaderView, ImageView,
};
use crate::size::{
    file_size_for, image_size_of, lemma_accepted_sizes, pixel_array_size, size_accepted,
    stored_image_size, BITS_PER_PIXEL, RESOLUTION,
};
use vstd::prelude::*;

verus! {

impl ErrInfoFuncs for ErrInfo {
    /// The record of the four values, as they are.
    fn set_vals(
        file: String,
        error_info: String,
        bmp_header: BmpHEADER,
        dib_header: BmpDIBHEADER,
    ) -> (info: Self)
        ensures
            info@ == (ErrInfoView {
                err_file: file@,
                err_info: error_info@,
                bmp_header: bmp_header@,
                bmp_dib_header: dib_header,
            }),
    {
        ErrInfo {
            err_file: file,
            err_info: error_info,
            bmp_header: bmp_header,
            bmp_dib_header: dib_header,
        }
    }
}

impl BmpImageErrsFuncs for BmpImageErrs {
    /// [`BmpImageErrs::ErrCreating`] with the record of the four values.
    fn err_creating(
        file: String,
        error_info: String,
        header: BmpHEADER,
        dib_header: BmpDIBHEADER,
    ) -> (e: BmpImageErrs)
        ensures
            e matches BmpImageErrs::ErrCreating(info) && info@ == (ErrInfoView {
                err_file: file@,
                err_info: error_info@,
                bmp_header: header@,
                bmp_dib_header: dib_header,
            }),
    {
        BmpImageErrs::ErrCreating(ErrInfo::set_vals(file, error_info, header, dib_header))
    }

    /// [`BmpImageErrs::InvalidImageSize`] with the size.
    fn invalid_img_size(image_size: u32) -> (e: BmpImageErrs)
        ensures
            e == BmpImageErrs::InvalidImageSize(image_size),
    {
        BmpImageErrs::InvalidImageSize(image_size)
    }
}

impl HeaderView {
    /// The header that an image starts with: the signature, and both
    /// numbers at zero.
    pub open spec fn blank() -> HeaderView {
        HeaderView { header_field: seq!['B', 'M'], bmp_file_size: 0, starting_addr: 0 }
    }

    /// This header with the file size and the pixel offset replaced.
    pub open spec fn assigned(self, file_size: u32, starting_address: u32) -> HeaderView {
        HeaderView { bmp_file_size: file_size, starting_addr: starting_address, ..self }
    }
}

impl Clone for BmpHEADER {
    fn clone(&self) -> (copy: Self)
        ensures
            copy@ == self@,
    {
        BmpHEADER {
            header_field: self.header_field.clone(),
            bmp_file_size: self.bmp_file_size,
            starting_addr: self.starting_addr,
        }
    }
}

impl BmpHeaderFuncs for BmpHEADER {
    /// The signature `'B'`, `'M'`, and both numbers at zero.
    fn new_header() -> (header: Self)
        ensures
            header@ == HeaderView::blank(),
            header@.wf(),
    {
        let mut signature: Vec<char> = Vec::new();
        signature.push('B');
        signature.push('M');
        BmpHEADER { header_field: signature, bmp_file_size: 0, starting_addr: 0 }
    }

    /// Replaces the file size and the pixel offset; the signature stays.
    fn assign(&mut self, file_size: u32, starting_address: u32) -> (copy: BmpHEADER)
        ensures
            final(self)@ == old(self)@.assigned(file_size, starting_address),
            copy@ == final(self)@,
    {
        self.bmp_file_size = file_size;
        self.starting_addr = starting_address;
        self.clone()
    }
}

impl BmpDIBHEADER {
    /// The header that an image of the given dimensions starts with: one
    /// colour plane, and every other field at zero.
    pub open spec fn blank(width: u32, height: u32) -> BmpDIBHEADER {
        BmpDIBHEADER {
            header_size: 0,
            width: width,
            height: height,
            color_planes: 1,
            bits_per_pixel: 0,
            compression: 0,
            image_size: 0,
            horizontal_res: 0,
            vertical_res: 0,
            color_palette: 0,
            important_c: 0,
        }
    }

    /// This header with the five assignable fields replaced.
    pub open spec fn assigned(
        self,
        h_res: u32,
        v_res: u32,
        image_size: u32,
        header_size: u32,
        bpp: u8,
    ) -> BmpDIBHEADER {
        BmpDIBHEADER {
            horizontal_res: h_res,
            vertical_res: v_res,
            image_size: image_size,
            header_size: header_size,
            bits_per_pixel: bpp,
            ..self
        }
    }

    /// This header with the fields that follow from its dimensions filled
    /// in: the fixed resolution, header size and bit depth, and the image
    /// size as 32 bits hold it.
    pub open spec fn sized(self) -> BmpDIBHEADER {
        self.assigned(
            RESOLUTION,
            RESOLUTION,
            stored_image_size(self.width, self.height),
            DIB_HEADER_LEN,
            BITS_PER_PIXEL,
        )
    }
}

impl Clone for BmpDIBHEADER {
    fn clone(&self) -> (copy: Self)
        ensures
            copy == *self,
    {
        BmpDIBHEADER {
            header_size: self.header_size,
            width: self.width,
            height: self.height,
            color_planes: self.color_planes,
            bits_per_pixel: self.bits_per_pixel,
            compression: self.compression,
            image_size: self.image_size,
            horizontal_res: self.horizontal_res,
            vertical_res: self.vertical_res,
            color_palette: self.color_palette,
            important_c: self.important_c,
        }
    }
}

impl BmpDibHeaderFuncs for BmpDIBHEADER {
    /// The dimensions, one colour plane, and every other field at zero.
    fn new_dib_header(width: u32, height: u32) -> (dib: Self)
        ensures
            dib == BmpDIBHEADER::blank(width, height),
            dib.wf(),
    {
        BmpDIBHEADER {
            header_size: 0,
            width: width,
            height: height,
            color_planes: 1,
            bits_per_pixel: 0,
            compression: 0,
            image_size: 0,
            horizontal_res: 0,
            vertical_res: 0,
            color_palette: 0,
            important_c: 0,
        }
    }

    /// Replaces the five fields; dimensions, planes, compression and the
    /// two colour counts stay.
    fn assign_dib_header(
        &mut self,
        h_res: u32,
        v_res: u32,
        image_size: u32,
        header_size: u32,
        bpp: u8,
    ) -> (copy: BmpDIBHEADER)
        ensures
            *final(self) == old(self).assigned(h_res, v_res, image_size, header_size, bpp),
            copy == *final(self),
    {
        self.horizontal_res = h_res;
        self.vertical_res = v_res;
        self.image_size = image_size;
        self.header_size = header_size;
        self.bits_per_pixel = bpp;
        self.clone()
    }
}

/// The message of a write that was refused because the target exists.
pub open spec fn file_exists_message() -> Seq<char> {
    "File Already Exists"@
}

impl ImageView {
    /// The image that a construction gives: blank headers, nothing
    /// serialised, no pixels.
    pub open spec fn blank(width: u32, height: u32) -> ImageView {
        ImageView {
            header: HeaderView::blank(),
            dib_header: BmpDIBHEADER::blank(width, height),
            header_arr: Seq::empty(),
            dib_header_arr: Seq::empty(),
            pixel_array: Seq::empty(),
        }
    }

    /// Both headers hold their fixed values.
    pub open spec fn wf(self) -> bool {
        self.header.wf() && self.dib_header.wf()
    }

    /// What holds of an image between a successful configure and its write:
    /// the fixed fields have their values of the format, the image size is
    /// the one of the dimensions and even, and the file size is the image
    /// size and the two headers.
    pub open spec fn configured(self) -> bool {
        &&& self.wf()
        &&& self.dib_header.header_size == DIB_HEADER_LEN
        &&& self.dib_header.bits_per_pixel == BITS_PER_PIXEL
        &&& self.dib_header.horizontal_res == RESOLUTION
        &&& self.dib_header.vertical_res == RESOLUTION
        &&& self.dib_header.image_size == image_size_of(
            self.dib_header.width,
            self.dib_header.height,
        )
        &&& self.dib_header.image_size % 2 == 0
        &&& self.header.bmp_file_size == self.dib_header.image_size + PIXEL_DATA_OFFSET
        &&& self.header.starting_addr == PIXEL_DATA_OFFSET
    }

    /// The image after a configure that was refused: the DIB header has its
    /// derived fields, nothing else has changed.
    pub open spec fn configure_refused(self) -> ImageView {
        ImageView { dib_header: self.dib_header.sized(), ..self }
    }

    /// The image after a configure that was accepted: the DIB header has
    /// its derived fields, the file header its size and offset, and the
    /// pixel bytes are the ones given.
    pub open spec fn configure_accepted(self, pixels: Seq<u8>) -> ImageView {
        ImageView {
            header: self.header.assigned(
                (self.dib_header.sized().image_size + PIXEL_DATA_OFFSET) as u32,
                PIXEL_DATA_OFFSET,
            ),
            dib_header: self.dib_header.sized(),
            pixel_array: pixels,
            ..self
        }
    }

    /// The image with both headers serialised.
    pub open spec fn serialised(self) -> ImageView {
        ImageView {
            header_arr: header_bytes(self.header),
            dib_header_arr: dib_header_bytes(self.dib_header),
            ..self
        }
    }

    /// The bytes that a write sends to the file, in their order: the two
    /// serialised headers, then the pixel bytes.
    pub open spec fn stream(self) -> Seq<u8> {
        self.header_arr + self.dib_header_arr + self.pixel_array
    }
}

impl Clone for BmpImageInfo {
    fn clone(&self) -> (copy: Self)
        ensures
            copy@ == self@,
    {
        BmpImageInfo {
            header: self.header.clone(),
            dib_header: self.dib_header.clone(),
            header_arr: self.header_arr.clone(),
            dib_header_arr: self.dib_header_arr.clone(),
            pixel_array: self.pixel_array.clone(),
        }
    }
}

impl BmpImageInfoFuncs for BmpImageInfo {
    /// An image of `width` by `height` pixels with blank headers, nothing
    /// serialised and no pixel bytes.
    fn new_bmp(width: u32, height: u32) -> (image: Self)
        ensures
            image@ == ImageView::blank(width, height),
            image@.wf(),
    {
        BmpImageInfo {
            header: BmpHEADER::new_header(),
            dib_header: BmpDIBHEADER::new_dib_header(width, height),
            header_arr: Vec::new(),
            dib_header_arr: Vec::new(),
            pixel_array: Vec::new(),
        }
    }

    /// Gives the DIB header the fields that follow from its dimensions, then
    /// tests the image size. An accepted size gives the file header its
    /// size and offset, and the image takes the pixel bytes as they are:
    /// their number is not held against the image size. A refused size
    /// leaves the file header and the pixel bytes as they were; the DIB
    /// header keeps its new fields.
    ///
    /// The size is refused exactly when the pixel array of the dimensions
    /// and the two headers do not fit in 32 bits together. An odd size
    /// would be refused too; four bytes per pixel never give one.
    fn configure_bmp(&mut self, pixel_array: Vec<u8>) -> (r: Result<BmpImageInfo, BmpImageErrs>)
        ensures
            match r {
                Ok(image) => {
                    &&& size_accepted(old(self).dib_header.sized().image_size)
                    &&& final(self)@ == old(self)@.configure_accepted(pixel_array@)
                    &&& image@ == final(self)@
                },
                Err(e) => {
                    &&& !size_accepted(old(self).dib_header.sized().image_size)
                    &&& final(self)@ == old(self)@.configure_refused()
                    &&& e == BmpImageErrs::InvalidImageSize(
                        old(self).dib_header.sized().image_size,
                    )
                },
            },
            r is Ok <==> image_size_of(old(self).dib_header.width, old(self).dib_header.height)
                + PIXEL_DATA_OFFSET <= u32::MAX,
            r is Ok ==> final(self).dib_header.image_size == image_size_of(
                old(self).dib_header.width,
                old(self).dib_header.height,
            ),
            image_size_of(old(self).dib_header.width, old(self).dib_header.height) % 2 != 0 ==> (r
                matches Err(BmpImageErrs::InvalidImageSize(size)) && size == image_size_of(
                old(self).dib_header.width,
                old(self).dib_header.height,
            )),
            r is Ok && old(self)@.wf() ==> final(self)@.configured(),
    {
        proof {
            lemma_accepted_sizes(self.dib_header.width, self.dib_header.height);
        }
        let image_size: u32 = pixel_array_size(self.dib_header.width, self.dib_header.height);
        self.dib_header.assign_dib_header(
            RESOLUTION,
            RESOLUTION,
            image_size,
            DIB_HEADER_LEN,
            BITS_PER_PIXEL,
        );
        match file_size_for(image_size) {
            Err(e) => Err(e),
            Ok(file_size) => {
                self.header.assign(file_size, PIXEL_DATA_OFFSET);
                self.pixel_array = pixel_array;
                Ok(self.clone())
            },
        }
    }

    /// Decides a write to `filename` and prepares it. The caller looks
    /// whether something is at `filename` already and hands that in as
    /// `exists`. If so the write is refused and the image stays as it is.
    /// If not, both headers are serialised into the image, and the caller
    /// sends the serialised headers and the pixel bytes to the new file.
    fn write_bmp(&mut self, filename: String, exists: bool) -> (r: Result<
        BmpImageInfo,
        BmpImageErrs,
    >)
        ensures
            match r {
                Ok(image) => {
                    &&& !exists
                    &&& final(self)@ == old(self)@.serialised()
                    &&& final(self)@.stream() == file_bytes(old(self)@)
                    &&& image@ == final(self)@
                },
                Err(e) => {
                    &&& exists
                    &&& final(self)@ == old(self)@
                    &&& e matches BmpImageErrs::ErrCreating(info)
                    &&& info@ == (ErrInfoView {
                        err_file: filename@,
                        err_info: file_exists_message(),
                        bmp_header: old(self)@.header,
                        bmp_dib_header: old(self).dib_header,
                    })
                },
            },
    {
        if exists {
            return Err(
                BmpImageErrs::err_creating(
                    filename,
                    "File Already Exists".to_owned(),
                    self.header.clone(),
                    self.dib_header.clone(),
                ),
            );
        }
        self.header_arr = encode_header(&self.header);
        self.dib_header_arr = encode_dib_header(&self.dib_header);
        Ok(self.clone())
    }
}

} // verus!
