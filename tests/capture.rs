use std::io::Cursor;

use image::{DynamicImage, ImageFormat, RgbImage};
use pasha_log::capture::{decode_picture, fit_to_width, render_artifact, target_dimensions};
use pasha_log::error::{CodecStep, ReportError};

fn png_bytes(width: u32, height: u32) -> Vec<u8> {
    let img = DynamicImage::ImageRgb8(RgbImage::from_fn(width, height, |x, y| {
        image::Rgb([(x % 256) as u8, (y % 256) as u8, 128])
    }));
    let mut out = Cursor::new(Vec::new());
    img.write_to(&mut out, ImageFormat::Png).unwrap();
    out.into_inner()
}

#[test]
fn narrow_images_keep_their_size() {
    assert_eq!(target_dimensions(1920, 1080), (1920, 1080));
    assert_eq!(target_dimensions(800, 5000), (800, 5000));
    assert_eq!(target_dimensions(1, 1), (1, 1));
    assert_eq!(target_dimensions(0, 0), (0, 0));
}

#[test]
fn wide_images_scale_to_max_width() {
    assert_eq!(target_dimensions(3840, 2160), (1920, 1080));
    assert_eq!(target_dimensions(2880, 1800), (1920, 1200));
    // 1001 * 1920 / 2500 = 768.768
    assert_eq!(target_dimensions(2500, 1001), (1920, 769));
    // 1000 * 1920 / 2560 = 750
    assert_eq!(target_dimensions(2560, 1000), (1920, 750));
    // 1 * 1920 / 1921 = 0.9995
    assert_eq!(target_dimensions(1921, 1), (1920, 1));
    // 3 * 1920 / 3840 = 1.5, rounded up
    assert_eq!(target_dimensions(3840, 3), (1920, 2));
    assert_eq!(target_dimensions(u32::MAX, u32::MAX), (1920, 1920));
}

#[test]
fn wide_capture_is_resized_and_encoded() {
    let a = render_artifact(&png_bytes(2400, 100)).unwrap();
    assert_eq!((a.source_width, a.source_height), (2400, 100));
    assert_eq!((a.width, a.height), (1920, 80));
    let back = image::load_from_memory(&a.jpeg).unwrap();
    assert_eq!(image::guess_format(&a.jpeg).unwrap(), ImageFormat::Jpeg);
    assert_eq!((back.width(), back.height()), (1920, 80));
}

#[test]
fn narrow_capture_keeps_dimensions() {
    let a = render_artifact(&png_bytes(64, 48)).unwrap();
    assert_eq!((a.width, a.height), (64, 48));
    let back = image::load_from_memory(&a.jpeg).unwrap();
    assert_eq!((back.width(), back.height()), (64, 48));
}

#[test]
fn fit_resizes_decoded_picture() {
    // 11 * 1920 / 2500 = 8.448
    let p = decode_picture(&png_bytes(2500, 11)).unwrap();
    assert_eq!((p.width(), p.height()), (2500, 11));
    let f = fit_to_width(p);
    assert_eq!((f.width(), f.height()), (1920, 8));
}

#[test]
fn garbage_is_a_decode_error() {
    let r = render_artifact(&[1, 2, 3, 4, 5]);
    assert!(matches!(r, Err(ReportError::Codec(CodecStep::Decode, _))));
    let e = r.err().unwrap();
    assert!(e.message().starts_with("画像読み込みエラー: "));
}

#[test]
fn artifact_bytes_open_with_jpeg_marker() {
    let a = render_artifact(&png_bytes(16, 9)).unwrap();
    assert_eq!(&a.jpeg[..2], &[0xFF, 0xD8]);
}

#[test]
fn oversized_artifact_is_an_encode_error() {
    // 1920 wide is fine, but a JPEG cannot be 70000 pixels tall
    let r = render_artifact(&png_bytes(1, 70_000));
    assert!(matches!(r, Err(ReportError::Codec(CodecStep::Encode, _))));
}
