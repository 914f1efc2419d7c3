use ebcapture::error::EbCaptureError;
use ebcapture::pixel::{
    convert_bgr_to_rgba_fixed, convert_bgra_to_rgba_fixed, convert_with_adjusted_size,
    convert_with_format, create_bmp_header, detect_pixel_format, normalize, normalize_frame,
    PixelFormat, RawFrame,
};

fn bgra_frame(pixels: usize) -> Vec<u8> {
    let mut bytes = Vec::with_capacity(pixels * 4);
    for i in 0..pixels {
        bytes.push((i % 251) as u8);
        bytes.push((i % 241 + 1) as u8);
        bytes.push((i % 239 + 2) as u8);
        bytes.push((i % 233 + 3) as u8);
    }
    bytes
}

#[test]
fn normalize_swaps_blue_and_red_of_exact_bgra() {
    let bytes = bgra_frame(6);
    let raw = RawFrame { bytes: bytes.clone(), width: 3, height: 2 };
    let img = normalize(raw).unwrap();
    assert_eq!(img.width(), 3);
    assert_eq!(img.height(), 2);
    let out = img.as_bytes();
    assert_eq!(out.len(), 24);
    for i in 0..6 {
        assert_eq!(out[4 * i], bytes[4 * i + 2]);
        assert_eq!(out[4 * i + 1], bytes[4 * i + 1]);
        assert_eq!(out[4 * i + 2], bytes[4 * i]);
        assert_eq!(out[4 * i + 3], bytes[4 * i + 3]);
    }
}

#[test]
fn normalize_makes_three_byte_frames_opaque() {
    let bytes: Vec<u8> = vec![10, 20, 30, 40, 50, 60];
    let raw = RawFrame { bytes, width: 2, height: 1 };
    let img = normalize(raw).unwrap();
    assert_eq!(img.as_bytes(), &[30, 20, 10, 255, 60, 50, 40, 255]);
}

#[test]
fn normalize_recovers_the_height() {
    let raw = RawFrame { bytes: vec![7u8; 100 * 60 * 4], width: 100, height: 50 };
    let img = normalize(raw).unwrap();
    assert_eq!(img.width(), 100);
    assert_eq!(img.height(), 60);
    assert_eq!(img.as_bytes().len(), 100 * 60 * 4);
}

#[test]
fn normalize_refuses_a_length_that_fits_nothing() {
    let raw = RawFrame { bytes: vec![0u8; 1001], width: 100, height: 50 };
    assert_eq!(
        normalize(raw),
        Err(EbCaptureError::UnsupportedPixelFormat { byte_length: 1001, width: 100, height: 50 })
    );
}

#[test]
fn normalize_refuses_more_than_twice_the_height() {
    let raw = RawFrame { bytes: vec![0u8; 10 * 21 * 4], width: 10, height: 10 };
    assert_eq!(
        normalize(raw),
        Err(EbCaptureError::UnsupportedPixelFormat { byte_length: 840, width: 10, height: 10 })
    );
}

#[test]
fn detect_prefers_four_bytes_then_three() {
    assert_eq!(detect_pixel_format(&[0u8; 24], 3, 2), Ok(PixelFormat::Bgra));
    assert_eq!(detect_pixel_format(&[0u8; 18], 3, 2), Ok(PixelFormat::Bgr));
    assert_eq!(detect_pixel_format(&[0u8; 36], 3, 2), Ok(PixelFormat::Bgra));
    assert_eq!(detect_pixel_format(&[0u8; 27], 3, 2), Ok(PixelFormat::Bgr));
    assert!(matches!(
        detect_pixel_format(&[0u8; 25], 3, 2),
        Err(EbCaptureError::UnsupportedPixelFormat { byte_length: 25, width: 3, height: 2 })
    ));
}

#[test]
fn bytes_per_pixel_of_each_layout() {
    assert_eq!(PixelFormat::Bgra.bytes_per_pixel(), 4);
    assert_eq!(PixelFormat::Rgba.bytes_per_pixel(), 4);
    assert_eq!(PixelFormat::Bgr.bytes_per_pixel(), 3);
    assert_eq!(PixelFormat::Rgb.bytes_per_pixel(), 3);
}

#[test]
fn adjusted_conversion_reads_whole_groups_only() {
    let frame: Vec<u8> = vec![1, 2, 3, 4, 5, 6, 7, 8, 9];
    let img = convert_with_adjusted_size(&frame, 2, 1, PixelFormat::Rgba).unwrap();
    assert_eq!(img.as_bytes(), &[1, 2, 3, 4, 5, 6, 7, 8]);
    let img = convert_with_adjusted_size(&frame, 3, 1, PixelFormat::Rgb).unwrap();
    assert_eq!(img.as_bytes(), &[1, 2, 3, 255, 4, 5, 6, 255, 7, 8, 9, 255]);
    assert!(convert_with_adjusted_size(&frame, 3, 1, PixelFormat::Bgra).is_err());
}

#[test]
fn conversion_with_a_known_layout_adjusts_the_height() {
    let frame = vec![9u8; 2 * 5 * 3];
    let img = convert_with_format(&frame, 2, 3, PixelFormat::Bgr).unwrap();
    assert_eq!((img.width(), img.height()), (2, 5));
    assert!(convert_with_format(&frame[..29], 2, 3, PixelFormat::Bgr).is_err());
}

#[test]
fn conversion_with_a_known_layout_keeps_to_twice_the_height() {
    assert!(convert_with_format(&vec![0u8; 40400], 100, 50, PixelFormat::Bgra).is_err());
    let img = convert_with_format(&vec![0u8; 40000], 100, 50, PixelFormat::Bgra).unwrap();
    assert_eq!((img.width(), img.height()), (100, 100));
    assert!(convert_with_format(&[], 100, 50, PixelFormat::Bgra).is_err());
    assert!(convert_with_format(&vec![0u8; 30300], 100, 50, PixelFormat::Rgb).is_err());
}

#[test]
fn fixed_conversions_insist_on_the_exact_size() {
    assert!(convert_bgra_to_rgba_fixed(&[0u8; 16], 2, 2).is_ok());
    assert!(convert_bgra_to_rgba_fixed(&[0u8; 12], 2, 2).is_err());
    assert!(convert_bgr_to_rgba_fixed(&[0u8; 12], 2, 2).is_ok());
    assert!(convert_bgr_to_rgba_fixed(&[0u8; 16], 2, 2).is_err());
}

#[test]
fn bmp_header_fields() {
    let header = create_bmp_header(0x0102_0304, 7, 0x0A0B_0C0D);
    assert_eq!(&header[0..2], b"BM");
    assert_eq!(&header[2..6], &[0x0D, 0x0C, 0x0B, 0x0A]);
    assert_eq!(&header[6..10], &[0, 0, 0, 0]);
    assert_eq!(&header[10..14], &[54, 0, 0, 0]);
    assert_eq!(&header[14..18], &[40, 0, 0, 0]);
    assert_eq!(&header[18..22], &[0x04, 0x03, 0x02, 0x01]);
    assert_eq!(&header[22..26], &[7, 0, 0, 0]);
    assert_eq!(&header[26..28], &[1, 0]);
    assert_eq!(&header[28..30], &[24, 0]);
    assert!(header[30..].iter().all(|b| *b == 0));
}

#[test]
fn frames_without_width_or_height() {
    let img = normalize(RawFrame { bytes: Vec::new(), width: 0, height: 5 }).unwrap();
    assert_eq!((img.width(), img.height(), img.as_bytes().len()), (0, 5, 0));
    let img = normalize(RawFrame { bytes: Vec::new(), width: 7, height: 0 }).unwrap();
    assert_eq!((img.width(), img.height(), img.as_bytes().len()), (7, 0, 0));
    assert_eq!(
        normalize(RawFrame { bytes: vec![1, 2, 3, 4], width: 0, height: 5 }),
        Err(EbCaptureError::UnsupportedPixelFormat { byte_length: 4, width: 0, height: 5 })
    );
    assert_eq!(
        normalize(RawFrame { bytes: vec![1, 2, 3, 4], width: 1, height: 0 }),
        Err(EbCaptureError::UnsupportedPixelFormat { byte_length: 4, width: 1, height: 0 })
    );
}

#[test]
fn recovered_height_may_be_smaller_or_up_to_twice_as_large() {
    let img = normalize(RawFrame { bytes: vec![1u8; 10 * 3 * 4], width: 10, height: 8 }).unwrap();
    assert_eq!((img.width(), img.height()), (10, 3));
    let img = normalize(RawFrame { bytes: vec![1u8; 10 * 16 * 4], width: 10, height: 8 }).unwrap();
    assert_eq!((img.width(), img.height()), (10, 16));
    // 17 rows of four bytes are too many, but the bytes are no whole rows of three either
    assert!(normalize(RawFrame { bytes: vec![1u8; 10 * 17 * 4], width: 10, height: 8 }).is_err());
    // three bytes per pixel at a recovered height
    let img = normalize(RawFrame { bytes: vec![1u8; 10 * 5 * 3], width: 10, height: 8 }).unwrap();
    assert_eq!((img.width(), img.height()), (10, 5));
    assert!(img.as_bytes().chunks(4).all(|p| p[3] == 255));
}

#[test]
fn exact_three_bytes_win_over_a_recovered_height() {
    // 4 x 3 pixels at three bytes are 36 bytes, which are also 4 x 2.25 rows
    // of four bytes: the exact fit decides
    let img = normalize(RawFrame { bytes: vec![9u8; 36], width: 4, height: 3 }).unwrap();
    assert_eq!((img.width(), img.height()), (4, 3));
    // 4 x 4 pixels at three bytes are 48 bytes, and 4 x 3 rows of four bytes
    let img = normalize(RawFrame { bytes: vec![9u8; 48], width: 4, height: 4 }).unwrap();
    assert_eq!((img.width(), img.height()), (4, 4));
}

#[test]
fn bytes_are_normalized_like_a_raw_frame() {
    let bytes = bgra_frame(6);
    let from_bytes = normalize_frame(&bytes, 3, 2).unwrap();
    let from_frame = normalize(RawFrame { bytes, width: 3, height: 2 }).unwrap();
    assert_eq!(from_bytes, from_frame);
    assert!(normalize_frame(&[1, 2, 3], 3, 2).is_err());
}

#[test]
fn sizes_that_fit_nothing_are_unsupported() {
    assert_eq!(
        convert_bgra_to_rgba_fixed(&[0u8; 12], 2, 2),
        Err(EbCaptureError::UnsupportedPixelFormat { byte_length: 12, width: 2, height: 2 })
    );
    assert_eq!(
        convert_bgr_to_rgba_fixed(&[0u8; 16], 2, 2),
        Err(EbCaptureError::UnsupportedPixelFormat { byte_length: 16, width: 2, height: 2 })
    );
    assert_eq!(
        convert_with_format(&vec![0u8; 40400], 100, 50, PixelFormat::Bgra),
        Err(EbCaptureError::UnsupportedPixelFormat { byte_length: 40400, width: 100, height: 50 })
    );
    assert_eq!(
        convert_with_adjusted_size(&[0u8; 11], 3, 1, PixelFormat::Bgra),
        Err(EbCaptureError::UnsupportedPixelFormat { byte_length: 11, width: 3, height: 1 })
    );
    assert_eq!(
        convert_with_adjusted_size(&[0u8; 8], usize::MAX, 2, PixelFormat::Bgr),
        Err(EbCaptureError::UnsupportedPixelFormat { byte_length: 8, width: usize::MAX, height: 2 })
    );
}
