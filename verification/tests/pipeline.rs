//! End-to-end tests of the transcoding pipeline.

use imagebound::codec::Target;
use imagebound::pipeline::{transcode, Config, PipelineError};

fn png_rgba(width: u32, height: u32, pixel: [u8; 4]) -> Vec<u8> {
    let buf = image::RgbaImage::from_pixel(width, height, image::Rgba(pixel));
    let mut cursor = std::io::Cursor::new(Vec::new());
    image::DynamicImage::ImageRgba8(buf)
        .write_to(&mut cursor, image::ImageFormat::Png)
        .unwrap();
    cursor.into_inner()
}

fn jpeg_rgb(width: u32, height: u32, pixel: [u8; 3]) -> Vec<u8> {
    let buf = image::RgbImage::from_pixel(width, height, image::Rgb(pixel));
    let mut cursor = std::io::Cursor::new(Vec::new());
    image::DynamicImage::ImageRgb8(buf)
        .write_to(&mut cursor, image::ImageFormat::Jpeg)
        .unwrap();
    cursor.into_inner()
}

#[test]
fn empty_input_is_rejected() {
    let raw: Vec<u8> = Vec::new();
    let r = transcode(&raw, Target::Jpeg, &Config::standard());
    assert_eq!(r.unwrap_err(), PipelineError::EmptyInput);
    assert_eq!(PipelineError::EmptyInput.message(), "No data");
}

#[test]
fn unreadable_bytes_fail_as_decode_error() {
    let raw: Vec<u8> = vec![0x42; 64];
    let r = transcode(&raw, Target::Webp, &Config::standard());
    assert_eq!(r.unwrap_err(), PipelineError::DecodeFailed);
    assert_eq!(PipelineError::DecodeFailed.message(), "Decode error");
}

#[test]
fn failure_containment_on_random_buffers() {
    // Ten deterministic pseudo-random non-image buffers: every one must fail
    // cleanly as a decode error, with no partial output.
    let mut state: u64 = 0x1234_5678_9abc_def0;
    for round in 0..10 {
        let len = 32 + round * 57;
        let mut raw = Vec::with_capacity(len);
        for _ in 0..len {
            state = state.wrapping_mul(6364136223846793005).wrapping_add(1442695040888963407);
            raw.push((state >> 33) as u8);
        }
        let r = transcode(&raw, Target::Jpeg, &Config::standard());
        match r {
            Err(PipelineError::DecodeFailed) => {}
            other => panic!("round {}: expected a decode failure, got {:?}", round, other),
        }
    }
}

#[test]
fn jpeg_mode_flattens_scales_and_encodes() {
    // A 2000 x 1000 fully transparent RGBA PNG: the JPEG pipeline must
    // flatten it to white, scale it to 1024 x 512, and emit a real JPEG.
    let raw = png_rgba(2000, 1000, [10, 20, 30, 0]);
    let out = transcode(&raw, Target::Jpeg, &Config::standard()).expect("pipeline should succeed");
    assert_eq!(out.media_type(), "image/jpeg");
    assert_eq!(image::guess_format(&out.bytes).unwrap(), image::ImageFormat::Jpeg);
    let back = image::load_from_memory(&out.bytes).expect("output must decode as JPEG");
    assert_eq!((back.width(), back.height()), (1024, 512));
    assert!(!back.color().has_alpha());
    let px = back.to_rgb8().get_pixel(0, 0).0;
    for c in px {
        assert!(c >= 250, "corner pixel {:?} is not white", px);
    }
}

#[test]
fn webp_mode_keeps_small_images_unscaled() {
    // A 500 x 500 opaque JPEG: the WebP pipeline must not scale it.
    let raw = jpeg_rgb(500, 500, [120, 80, 40]);
    let out = transcode(&raw, Target::Webp, &Config::standard()).expect("pipeline should succeed");
    assert_eq!(out.media_type(), "image/webp");
    assert_eq!(image::guess_format(&out.bytes).unwrap(), image::ImageFormat::WebP);
    let back = image::load_from_memory(&out.bytes).expect("output must decode as WebP");
    assert_eq!((back.width(), back.height()), (500, 500));
}

#[test]
fn webp_mode_preserves_alpha() {
    let raw = png_rgba(10, 10, [200, 100, 50, 100]);
    let out = transcode(&raw, Target::Webp, &Config::standard()).expect("pipeline should succeed");
    let back = image::load_from_memory(&out.bytes).expect("output must decode as WebP");
    assert!(back.color().has_alpha(), "WebP output lost the alpha channel");
    assert_eq!((back.width(), back.height()), (10, 10));
}

#[test]
fn jpeg_mode_output_is_alpha_free() {
    let raw = png_rgba(10, 10, [200, 100, 50, 100]);
    let out = transcode(&raw, Target::Jpeg, &Config::standard()).expect("pipeline should succeed");
    let back = image::load_from_memory(&out.bytes).expect("output must decode as JPEG");
    assert!(!back.color().has_alpha(), "JPEG output carries alpha");
}

#[test]
fn round_trip_dimensions_match_scaled_grid() {
    // Larger than the bound on the long side only: 1500 x 900 scales to
    // 1024 x round(900 * 1024 / 1500) = 614.
    let raw = jpeg_rgb(1500, 900, [90, 90, 90]);
    let out = transcode(&raw, Target::Jpeg, &Config::standard()).expect("pipeline should succeed");
    let back = image::load_from_memory(&out.bytes).unwrap();
    assert_eq!((back.width(), back.height()), (1024, 614));
}

#[test]
fn a_custom_configuration_is_honored() {
    let cfg = Config { max_dim: 100, background: imagebound::grid::Color { r: 0, g: 0, b: 0 } };
    let raw = png_rgba(400, 200, [250, 250, 250, 0]);
    let out = transcode(&raw, Target::Jpeg, &cfg).expect("pipeline should succeed");
    let back = image::load_from_memory(&out.bytes).unwrap();
    assert_eq!((back.width(), back.height()), (100, 50));
    // Fully transparent pixels flatten onto the black background.
    let px = back.to_rgb8().get_pixel(50, 25).0;
    for c in px {
        assert!(c <= 5, "pixel {:?} is not near the black background", px);
    }
}
