use std::io::Cursor;
use vision_core::compare::{calculate_pixel_diff, DiffError};
use vision_core::decode::load_image;
use vision_core::ratio::DiffRatio;

fn encode(width: u32, height: u32, pixels: Vec<u8>, format: image::ImageFormat) -> Vec<u8> {
    let img = image::RgbImage::from_raw(width, height, pixels).unwrap();
    let mut out = Cursor::new(Vec::new());
    image::DynamicImage::ImageRgb8(img).write_to(&mut out, format).unwrap();
    out.into_inner()
}

fn png(width: u32, height: u32, pixels: Vec<u8>) -> Vec<u8> {
    encode(width, height, pixels, image::ImageFormat::Png)
}

fn solid_pixels(width: u32, height: u32, color: [u8; 3]) -> Vec<u8> {
    let mut pixels = Vec::new();
    for _ in 0..(width as usize * height as usize) {
        pixels.extend_from_slice(&color);
    }
    pixels
}

fn gradient_pixels(width: u32, height: u32) -> Vec<u8> {
    let mut pixels = Vec::new();
    for y in 0..height {
        for x in 0..width {
            pixels.push((x * 7 % 256) as u8);
            pixels.push((y * 11 % 256) as u8);
            pixels.push(((x + y) * 13 % 256) as u8);
        }
    }
    pixels
}

fn decode_message(result: Result<DiffRatio, DiffError>) -> String {
    match result {
        Err(DiffError::Decode(e)) => e.message,
        other => panic!("expected a decode failure, got {:?}", other),
    }
}

#[test]
fn load_image_decodes_png_pixels() {
    let pixels = gradient_pixels(5, 3);
    let raster = load_image(&png(5, 3, pixels.clone())).unwrap();
    assert_eq!(raster.width, 5);
    assert_eq!(raster.height, 3);
    assert_eq!(raster.pixels, pixels);
}

#[test]
fn load_image_drops_alpha() {
    let rgba = image::RgbaImage::from_raw(2, 1, vec![1, 2, 3, 255, 4, 5, 6, 0]).unwrap();
    let mut out = Cursor::new(Vec::new());
    image::DynamicImage::ImageRgba8(rgba).write_to(&mut out, image::ImageFormat::Png).unwrap();
    let raster = load_image(&out.into_inner()).unwrap();
    assert_eq!(raster.width, 2);
    assert_eq!(raster.height, 1);
    assert_eq!(raster.pixels, vec![1, 2, 3, 4, 5, 6]);
}

#[test]
fn load_image_widens_grayscale() {
    let gray = image::GrayImage::from_raw(2, 2, vec![0, 50, 100, 255]).unwrap();
    let mut out = Cursor::new(Vec::new());
    image::DynamicImage::ImageLuma8(gray).write_to(&mut out, image::ImageFormat::Png).unwrap();
    let raster = load_image(&out.into_inner()).unwrap();
    assert_eq!(raster.pixels, vec![0, 0, 0, 50, 50, 50, 100, 100, 100, 255, 255, 255]);
}

#[test]
fn load_image_detects_the_format_from_content() {
    let pixels = solid_pixels(8, 8, [120, 130, 140]);
    for format in [image::ImageFormat::Png, image::ImageFormat::Bmp, image::ImageFormat::Jpeg] {
        let raster = load_image(&encode(8, 8, pixels.clone(), format)).unwrap();
        assert_eq!(raster.width, 8);
        assert_eq!(raster.height, 8);
        assert_eq!(raster.pixels.len(), 8 * 8 * 3);
    }
}

#[test]
fn load_image_rejects_random_bytes() {
    let err = load_image(&[0x13, 0x37, 0xde, 0xad, 0xbe, 0xef, 0x00, 0x42]).unwrap_err();
    assert!(!err.message.is_empty());
}

#[test]
fn load_image_rejects_an_empty_buffer() {
    let err = load_image(&[]).unwrap_err();
    assert!(!err.message.is_empty());
}

#[test]
fn load_image_rejects_a_truncated_image() {
    let bytes = png(4, 4, gradient_pixels(4, 4));
    let err = load_image(&bytes[..12]).unwrap_err();
    assert!(!err.message.is_empty());
    let err = load_image(&bytes[..bytes.len() / 2]).unwrap_err();
    assert!(!err.message.is_empty());
}

#[test]
fn identical_bytes_give_zero() {
    for (w, h) in [(1, 1), (4, 4), (13, 7)] {
        let bytes = png(w, h, gradient_pixels(w, h));
        assert_eq!(
            calculate_pixel_diff(&bytes, &bytes).unwrap(),
            DiffRatio { differing: 0, total: (w * h) as u64 }
        );
    }
}

#[test]
fn identical_jpeg_bytes_give_zero() {
    let bytes = encode(16, 16, gradient_pixels(16, 16), image::ImageFormat::Jpeg);
    let ratio = calculate_pixel_diff(&bytes, &bytes).unwrap();
    assert_eq!(ratio, DiffRatio { differing: 0, total: 256 });
}

#[test]
fn completely_different_images_give_one() {
    let black = png(3, 3, solid_pixels(3, 3, [0, 0, 0]));
    let white = png(3, 3, solid_pixels(3, 3, [255, 255, 255]));
    let ratio = calculate_pixel_diff(&black, &white).unwrap();
    assert_eq!(ratio, DiffRatio { differing: 9, total: 9 });
    assert!(ratio.is_one());
}

#[test]
fn result_lies_between_zero_and_one() {
    let a = png(6, 4, gradient_pixels(6, 4));
    for (w, h) in [(6, 4), (3, 2), (12, 8), (5, 5), (1, 1)] {
        let b = png(w, h, solid_pixels(w, h, [40, 80, 120]));
        let ratio = calculate_pixel_diff(&a, &b).unwrap();
        assert!(ratio.differing <= ratio.total);
        assert_eq!(ratio.total, 24);
    }
}

#[test]
fn threshold_boundary_through_encoded_images() {
    let base = png(2, 2, solid_pixels(2, 2, [100, 100, 100]));
    let at_threshold = png(2, 2, solid_pixels(2, 2, [110, 110, 110]));
    let above_threshold = png(2, 2, solid_pixels(2, 2, [110, 110, 111]));
    assert_eq!(
        calculate_pixel_diff(&base, &at_threshold).unwrap(),
        DiffRatio { differing: 0, total: 4 }
    );
    assert_eq!(
        calculate_pixel_diff(&base, &above_threshold).unwrap(),
        DiffRatio { differing: 4, total: 4 }
    );
}

#[test]
fn undecodable_first_argument_is_a_decode_error() {
    let good = png(2, 2, solid_pixels(2, 2, [1, 2, 3]));
    let message = decode_message(calculate_pixel_diff(b"definitely not an image", &good));
    assert!(!message.is_empty());
}

#[test]
fn undecodable_second_argument_is_a_decode_error() {
    let good = png(2, 2, solid_pixels(2, 2, [1, 2, 3]));
    let message = decode_message(calculate_pixel_diff(&good, b"definitely not an image"));
    assert!(!message.is_empty());
}

#[test]
fn truncated_header_is_a_decode_error() {
    let good = png(2, 2, solid_pixels(2, 2, [1, 2, 3]));
    let truncated = &good[..10];
    assert!(!decode_message(calculate_pixel_diff(truncated, &good)).is_empty());
    assert!(!decode_message(calculate_pixel_diff(&good, truncated)).is_empty());
}

#[test]
fn first_failure_is_reported_when_both_fail() {
    let first = load_image(b"first").unwrap_err();
    let message = decode_message(calculate_pixel_diff(b"first", &[]));
    assert_eq!(message, first.message);
}

#[test]
fn a_failure_does_not_affect_later_calls() {
    let good = png(2, 2, solid_pixels(2, 2, [1, 2, 3]));
    assert!(calculate_pixel_diff(b"junk", &good).is_err());
    assert_eq!(
        calculate_pixel_diff(&good, &good).unwrap(),
        DiffRatio { differing: 0, total: 4 }
    );
}

#[test]
fn upsampled_solid_image_beyond_tolerance_gives_one() {
    let a = png(4, 4, solid_pixels(4, 4, [10, 10, 10]));
    let b = png(2, 2, solid_pixels(2, 2, [200, 10, 10]));
    assert_eq!(
        calculate_pixel_diff(&a, &b).unwrap(),
        DiffRatio { differing: 16, total: 16 }
    );
}

#[test]
fn upsampled_solid_image_within_tolerance_gives_zero() {
    let a = png(4, 4, solid_pixels(4, 4, [10, 10, 10]));
    let b = png(2, 2, solid_pixels(2, 2, [20, 20, 20]));
    assert_eq!(
        calculate_pixel_diff(&a, &b).unwrap(),
        DiffRatio { differing: 0, total: 16 }
    );
}

#[test]
fn swapping_the_arguments_can_change_the_result() {
    let a = png(1, 1, vec![10, 10, 10]);
    let b = png(2, 1, vec![10, 10, 10, 200, 200, 200]);
    let forward = calculate_pixel_diff(&a, &b).unwrap();
    let backward = calculate_pixel_diff(&b, &a).unwrap();
    assert_eq!(forward, DiffRatio { differing: 1, total: 1 });
    assert_eq!(backward, DiffRatio { differing: 1, total: 2 });
}

#[test]
fn ratio_equals_altered_pixels_over_all_pixels() {
    let base = gradient_pixels(5, 4);
    let mut modified = base.clone();
    for (k, index) in [2usize, 11, 19].iter().enumerate() {
        modified[3 * index] = modified[3 * index].wrapping_add(128);
        let ratio = calculate_pixel_diff(&png(5, 4, base.clone()), &png(5, 4, modified.clone()));
        assert_eq!(ratio.unwrap(), DiffRatio { differing: k as u64 + 1, total: 20 });
    }
}
