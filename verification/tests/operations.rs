use bmp_render::render::{
    BmpDIBHEADER, BmpDibHeaderFuncs, BmpHEADER, BmpHeaderFuncs, BmpImageErrs, BmpImageErrsFuncs,
    BmpImageInfo, BmpImageInfoFuncs, ErrInfo, ErrInfoFuncs,
};
use bmp_render::size::{file_size_for, pixel_array_size, BITS_PER_PIXEL, RESOLUTION};

#[test]
fn new_header_has_signature_and_zeros() {
    let header = BmpHEADER::new_header();
    assert_eq!(header.header_field, vec!['B', 'M']);
    assert_eq!(header.bmp_file_size, 0);
    assert_eq!(header.starting_addr, 0);
}

#[test]
fn assign_sets_size_and_offset_and_returns_a_copy() {
    let mut header = BmpHEADER::new_header();
    let copy = header.assign(1234, 54);
    assert_eq!(header.bmp_file_size, 1234);
    assert_eq!(header.starting_addr, 54);
    assert_eq!(header.header_field, vec!['B', 'M']);
    assert_eq!(copy.bmp_file_size, 1234);
    assert_eq!(copy.starting_addr, 54);
    assert_eq!(copy.header_field, vec!['B', 'M']);
}

#[test]
fn new_dib_header_has_dimensions_and_one_plane() {
    let dib = BmpDIBHEADER::new_dib_header(7, 9);
    assert_eq!(dib.width, 7);
    assert_eq!(dib.height, 9);
    assert_eq!(dib.color_planes, 1);
    assert_eq!(dib.header_size, 0);
    assert_eq!(dib.bits_per_pixel, 0);
    assert_eq!(dib.compression, 0);
    assert_eq!(dib.image_size, 0);
    assert_eq!(dib.horizontal_res, 0);
    assert_eq!(dib.vertical_res, 0);
    assert_eq!(dib.color_palette, 0);
    assert_eq!(dib.important_c, 0);
}

#[test]
fn assign_dib_header_sets_five_fields_and_returns_a_copy() {
    let mut dib = BmpDIBHEADER::new_dib_header(7, 9);
    let copy = dib.assign_dib_header(11, 12, 13, 14, 15);
    for d in [&dib, &copy] {
        assert_eq!(d.horizontal_res, 11);
        assert_eq!(d.vertical_res, 12);
        assert_eq!(d.image_size, 13);
        assert_eq!(d.header_size, 14);
        assert_eq!(d.bits_per_pixel, 15);
        assert_eq!(d.width, 7);
        assert_eq!(d.height, 9);
        assert_eq!(d.color_planes, 1);
        assert_eq!(d.compression, 0);
        assert_eq!(d.color_palette, 0);
        assert_eq!(d.important_c, 0);
    }
}

#[test]
fn new_bmp_is_blank() {
    let image = BmpImageInfo::new_bmp(640, 480);
    assert_eq!(image.dib_header.width, 640);
    assert_eq!(image.dib_header.height, 480);
    assert_eq!(image.dib_header.color_planes, 1);
    assert_eq!(image.dib_header.image_size, 0);
    assert_eq!(image.header.header_field, vec!['B', 'M']);
    assert_eq!(image.header.bmp_file_size, 0);
    assert_eq!(image.header.starting_addr, 0);
    assert!(image.header_arr.is_empty());
    assert!(image.dib_header_arr.is_empty());
    assert!(image.pixel_array.is_empty());
}

#[test]
fn configure_fills_the_derived_fields() {
    let mut image = BmpImageInfo::new_bmp(300, 2);
    let pixels: Vec<u8> = vec![5; 2400];
    let configured = image.configure_bmp(pixels.clone()).unwrap();
    for i in [&image, &configured] {
        assert_eq!(i.dib_header.image_size, 2400);
        assert_eq!(i.dib_header.horizontal_res, 0x002E23);
        assert_eq!(i.dib_header.vertical_res, 0x002E23);
        assert_eq!(i.dib_header.header_size, 40);
        assert_eq!(i.dib_header.bits_per_pixel, 24);
        assert_eq!(i.dib_header.color_planes, 1);
        assert_eq!(i.dib_header.compression, 0);
        assert_eq!(i.dib_header.width, 300);
        assert_eq!(i.dib_header.height, 2);
        assert_eq!(i.header.bmp_file_size, 2454);
        assert_eq!(i.header.starting_addr, 54);
        assert_eq!(i.header.header_field, vec!['B', 'M']);
        assert_eq!(i.pixel_array, pixels);
        assert!(i.header_arr.is_empty());
        assert!(i.dib_header_arr.is_empty());
    }
    assert_eq!(RESOLUTION, 0x002E23);
    assert_eq!(BITS_PER_PIXEL, 24);
}

#[test]
fn configure_does_not_hold_the_pixel_bytes_to_the_image_size() {
    let mut image = BmpImageInfo::new_bmp(3, 3);
    image.configure_bmp(vec![1, 2, 3]).unwrap();
    assert_eq!(image.dib_header.image_size, 36);
    assert_eq!(image.pixel_array, vec![1, 2, 3]);
}

#[test]
fn an_image_may_be_configured_again() {
    let mut image = BmpImageInfo::new_bmp(2, 2);
    image.configure_bmp(vec![1; 16]).unwrap();
    let again = image.configure_bmp(vec![2; 16]).unwrap();
    assert_eq!(again.pixel_array, vec![2; 16]);
    assert_eq!(image.pixel_array, vec![2; 16]);
    assert_eq!(image.dib_header.image_size, 16);
    assert_eq!(image.header.bmp_file_size, 70);
}

#[test]
fn pixel_array_size_is_four_bytes_per_pixel() {
    assert_eq!(pixel_array_size(0, 0), 0);
    assert_eq!(pixel_array_size(0, 5), 0);
    assert_eq!(pixel_array_size(1, 1), 4);
    assert_eq!(pixel_array_size(3, 3), 36);
    assert_eq!(pixel_array_size(100, 100), 40000);
    assert_eq!(pixel_array_size(0x3FFF_FFFF, 1), 0xFFFF_FFFC);
    assert_eq!(pixel_array_size(0x8000, 0x7FFF), 0xFFFE_0000);
}

#[test]
fn pixel_array_size_beyond_32_bits_is_the_largest_value() {
    assert_eq!(pixel_array_size(0x4000_0000, 1), u32::MAX);
    assert_eq!(pixel_array_size(0x8000, 0x8000), u32::MAX);
    assert_eq!(pixel_array_size(70000, 70000), u32::MAX);
    assert_eq!(pixel_array_size(u32::MAX, u32::MAX), u32::MAX);
}

#[test]
fn file_size_is_image_size_and_headers() {
    assert!(matches!(file_size_for(0), Ok(54)));
    assert!(matches!(file_size_for(4), Ok(58)));
    assert!(matches!(file_size_for(36), Ok(90)));
    assert!(matches!(file_size_for(2), Ok(56)));
    assert!(matches!(file_size_for(0xFFFF_FFC8), Ok(0xFFFF_FFFE)));
}

#[test]
fn odd_image_size_is_refused_with_its_value() {
    for size in [1u32, 3, 35, 40001, 0xFFFF_FFC7, u32::MAX] {
        match file_size_for(size) {
            Err(BmpImageErrs::InvalidImageSize(carried)) => assert_eq!(carried, size),
            other => panic!("{:?}", other),
        }
    }
}

#[test]
fn image_size_without_room_for_the_headers_is_refused() {
    for size in [0xFFFF_FFCAu32, 0xFFFF_FFFC, 0xFFFF_FFFE] {
        match file_size_for(size) {
            Err(BmpImageErrs::InvalidImageSize(carried)) => assert_eq!(carried, size),
            other => panic!("{:?}", other),
        }
    }
}

#[test]
fn largest_image_is_accepted() {
    let mut image = BmpImageInfo::new_bmp(0x3FFF_FFF2, 1);
    image.configure_bmp(Vec::new()).unwrap();
    assert_eq!(image.dib_header.image_size, 0xFFFF_FFC8);
    assert_eq!(image.header.bmp_file_size, 0xFFFF_FFFE);
}

#[test]
fn configure_refuses_dimensions_beyond_32_bits() {
    let mut image = BmpImageInfo::new_bmp(70000, 70000);
    match image.configure_bmp(vec![1, 2, 3]) {
        Err(BmpImageErrs::InvalidImageSize(carried)) => assert_eq!(carried, u32::MAX),
        other => panic!("{:?}", other),
    }
    // The DIB header has its derived fields; nothing else has changed.
    assert_eq!(image.dib_header.image_size, u32::MAX);
    assert_eq!(image.dib_header.header_size, 40);
    assert_eq!(image.dib_header.bits_per_pixel, 24);
    assert_eq!(image.dib_header.horizontal_res, 0x002E23);
    assert_eq!(image.dib_header.vertical_res, 0x002E23);
    assert_eq!(image.dib_header.width, 70000);
    assert_eq!(image.dib_header.height, 70000);
    assert_eq!(image.header.bmp_file_size, 0);
    assert_eq!(image.header.starting_addr, 0);
    assert!(image.pixel_array.is_empty());
}

#[test]
fn configure_refuses_a_file_size_beyond_32_bits() {
    let mut image = BmpImageInfo::new_bmp(0x3FFF_FFFF, 1);
    match image.configure_bmp(Vec::new()) {
        Err(BmpImageErrs::InvalidImageSize(carried)) => assert_eq!(carried, 0xFFFF_FFFC),
        other => panic!("{:?}", other),
    }
    assert_eq!(image.dib_header.image_size, 0xFFFF_FFFC);
    assert_eq!(image.header.bmp_file_size, 0);
}

#[test]
fn write_serialises_both_headers() {
    let mut image = BmpImageInfo::new_bmp(2, 2);
    image.configure_bmp(vec![9; 16]).unwrap();
    let written = image.write_bmp("fresh.bmp".to_string(), false).unwrap();
    for i in [&image, &written] {
        assert_eq!(
            i.header_arr,
            vec![0x42, 0x4D, 70, 0, 0, 0, 0, 0, 0, 0, 54, 0, 0, 0]
        );
        assert_eq!(
            i.dib_header_arr,
            vec![
                40, 0, 0, 0, 2, 0, 0, 0, 2, 0, 0, 0, 1, 0, 24, 0, 0, 0, 0, 0, 16, 0, 0, 0, 0x23,
                0x2E, 0, 0, 0x23, 0x2E, 0, 0, 0, 0, 0, 0, 0, 0, 0, 0,
            ]
        );
        assert_eq!(i.pixel_array, vec![9; 16]);
        assert_eq!(i.header.bmp_file_size, 70);
        assert_eq!(i.dib_header.image_size, 16);
    }
}

#[test]
fn second_write_to_the_same_path_is_refused() {
    let mut image = BmpImageInfo::new_bmp(1, 1);
    image.configure_bmp(vec![1, 2, 3, 4]).unwrap();
    let first = image.write_bmp("twice.bmp".to_string(), false).unwrap();
    let sent: Vec<u8> = [&first.header_arr[..], &first.dib_header_arr[..], &first.pixel_array[..]]
        .concat();
    // The file is there now.
    match image.write_bmp("twice.bmp".to_string(), true) {
        Err(BmpImageErrs::ErrCreating(info)) => {
            assert_eq!(info.err_file, "twice.bmp");
            assert_eq!(info.err_info, "File Already Exists");
            assert_eq!(info.bmp_header.bmp_file_size, 58);
            assert_eq!(info.bmp_dib_header.image_size, 4);
        }
        other => panic!("{:?}", other),
    }
    // The refusal changes nothing of the image.
    let still: Vec<u8> = [&image.header_arr[..], &image.dib_header_arr[..], &image.pixel_array[..]]
        .concat();
    assert_eq!(still, sent);
}

#[test]
fn set_vals_keeps_what_it_is_given() {
    let mut header = BmpHEADER::new_header();
    header.assign(77, 54);
    let mut dib = BmpDIBHEADER::new_dib_header(4, 5);
    dib.assign_dib_header(1, 2, 80, 40, 24);
    let info = ErrInfo::set_vals("a/b.bmp".to_string(), "why".to_string(), header, dib);
    assert_eq!(info.err_file, "a/b.bmp");
    assert_eq!(info.err_info, "why");
    assert_eq!(info.bmp_header.bmp_file_size, 77);
    assert_eq!(info.bmp_header.starting_addr, 54);
    assert_eq!(info.bmp_header.header_field, vec!['B', 'M']);
    assert_eq!(info.bmp_dib_header.width, 4);
    assert_eq!(info.bmp_dib_header.height, 5);
    assert_eq!(info.bmp_dib_header.image_size, 80);
}

#[test]
fn err_creating_wraps_the_record() {
    let header = BmpHEADER::new_header();
    let dib = BmpDIBHEADER::new_dib_header(4, 5);
    match BmpImageErrs::err_creating("p.bmp".to_string(), "msg".to_string(), header, dib) {
        BmpImageErrs::ErrCreating(info) => {
            assert_eq!(info.err_file, "p.bmp");
            assert_eq!(info.err_info, "msg");
            assert_eq!(info.bmp_dib_header.width, 4);
            assert_eq!(info.bmp_dib_header.height, 5);
        }
        other => panic!("{:?}", other),
    }
}

#[test]
fn invalid_img_size_carries_the_size() {
    assert!(matches!(
        BmpImageErrs::invalid_img_size(41),
        BmpImageErrs::InvalidImageSize(41)
    ));
}

#[test]
fn io_error_becomes_file_error() {
    let err = std::io::Error::new(std::io::ErrorKind::PermissionDenied, "no");
    match BmpImageErrs::from(err) {
        BmpImageErrs::FileError(inner) => {
            assert_eq!(inner.kind(), std::io::ErrorKind::PermissionDenied)
        }
        other => panic!("{:?}", other),
    }
}

#[test]
fn clones_are_equal_field_by_field() {
    let mut image = BmpImageInfo::new_bmp(2, 1);
    image.configure_bmp(vec![1, 2, 3, 4, 5, 6, 7, 8]).unwrap();
    image.write_bmp("c.bmp".to_string(), false).unwrap();
    let copy = image.clone();
    assert_eq!(copy.header.header_field, image.header.header_field);
    assert_eq!(copy.header.bmp_file_size, image.header.bmp_file_size);
    assert_eq!(copy.header.starting_addr, image.header.starting_addr);
    assert_eq!(copy.dib_header.image_size, image.dib_header.image_size);
    assert_eq!(copy.dib_header.width, image.dib_header.width);
    assert_eq!(copy.dib_header.height, image.dib_header.height);
    assert_eq!(copy.header_arr, image.header_arr);
    assert_eq!(copy.dib_header_arr, image.dib_header_arr);
    assert_eq!(copy.pixel_array, image.pixel_array);
    let header = image.header.clone();
    assert_eq!(header.bmp_file_size, 62);
    let dib = image.dib_header.clone();
    assert_eq!(dib.bits_per_pixel, 24);
}
