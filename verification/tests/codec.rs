use base64::Engine;
use screen_capture::codec::{
    encode_frame, encode_thumbnail, scaled_dims, LIVE_JPEG_QUALITY, LIVE_MAX_WIDTH,
};
use screen_capture::error::Error;

fn solid_rgba(w: u32, h: u32, rgba: [u8; 4]) -> Vec<u8> {
    let mut pixels = Vec::with_capacity((w as usize) * (h as usize) * 4);
    for _ in 0..(w as usize) * (h as usize) {
        pixels.extend_from_slice(&rgba);
    }
    pixels
}

fn decode(data: &str) -> image::DynamicImage {
    let jpeg = base64::engine::general_purpose::STANDARD.decode(data).expect("valid base64");
    assert_eq!(&jpeg[0..2], &[0xFF, 0xD8], "JPEG bitstream expected");
    image::load_from_memory(&jpeg).expect("decodable image")
}

#[test]
fn scaled_dims_downscales_wide_frames() {
    assert_eq!(scaled_dims(2560, 1440, 1280), (1280, 720));
    assert_eq!(scaled_dims(1920, 1080, 1280), (1280, 720));
    assert_eq!(scaled_dims(3440, 1440, 1280), (1280, 536));
}

#[test]
fn scaled_dims_keeps_narrow_frames() {
    assert_eq!(scaled_dims(1280, 720, 1280), (1280, 720));
    assert_eq!(scaled_dims(640, 480, 1280), (640, 480));
}

#[test]
fn scaled_dims_rounds_to_nearest() {
    // 333 * 100 / 1000 = 33.3 rounds down
    assert_eq!(scaled_dims(1000, 333, 100), (100, 33));
    // 335 * 100 / 1000 = 33.5 rounds up
    assert_eq!(scaled_dims(1000, 335, 100), (100, 34));
}

#[test]
fn encode_downscales_to_max_width() {
    let pixels = solid_rgba(2560, 1440, [200, 30, 30, 255]);
    let e = encode_frame(&pixels, 2560, 1440, 1280, LIVE_JPEG_QUALITY).expect("encodes");
    assert_eq!(e.width, 1280);
    assert_eq!(e.height, 720);
    assert!(!e.data.is_empty());
    let img = decode(&e.data);
    assert_eq!(img.width(), 1280);
    assert_eq!(img.height(), 720);
}

#[test]
fn encode_preserves_color_through_the_pipeline() {
    let pixels = solid_rgba(400, 300, [200, 30, 30, 255]);
    let e = encode_frame(&pixels, 400, 300, LIVE_MAX_WIDTH, 90).expect("encodes");
    assert_eq!((e.width, e.height), (400, 300));
    let img = decode(&e.data).to_rgb8();
    let p = img.get_pixel(200, 150);
    // lossy compression, so allow a wide tolerance; an unencoded or
    // misordered buffer would be far off
    assert!((p[0] as i32 - 200).abs() < 30, "red channel: {}", p[0]);
    assert!((p[1] as i32 - 30).abs() < 30, "green channel: {}", p[1]);
    assert!((p[2] as i32 - 30).abs() < 30, "blue channel: {}", p[2]);
}

#[test]
fn encode_keeps_small_frames_unscaled() {
    let pixels = solid_rgba(64, 48, [1, 2, 3, 4]);
    let e = encode_frame(&pixels, 64, 48, LIVE_MAX_WIDTH, LIVE_JPEG_QUALITY).expect("encodes");
    assert_eq!((e.width, e.height), (64, 48));
    let img = decode(&e.data);
    assert_eq!((img.width(), img.height()), (64, 48));
}

#[test]
fn encode_rejects_degenerate_heights() {
    // height 0 cannot be compressed
    let e = encode_frame(&Vec::new(), 2000, 0, 1280, 50);
    assert!(matches!(e, Err(Error::EncodingFailed)));
    // a 10000:1 aspect ratio scales to a zero-pixel height
    let pixels = solid_rgba(10000, 1, [9, 9, 9, 255]);
    let e = encode_frame(&pixels, 10000, 1, 100, 50);
    assert!(matches!(e, Err(Error::EncodingFailed)));
}

#[test]
fn thumbnails_downscale_to_thumbnail_width() {
    let pixels = solid_rgba(640, 480, [10, 250, 10, 255]);
    let e = encode_thumbnail(&pixels, 640, 480).expect("encodes");
    assert_eq!(e.width, 320);
    assert_eq!(e.height, 240);
    let img = decode(&e.data);
    assert_eq!((img.width(), img.height()), (320, 240));
}

#[test]
fn error_messages_are_nonempty() {
    let errors = vec![
        Error::Platform("boom".to_string()),
        Error::InvalidTargetId,
        Error::UnknownTargetKind,
        Error::InvalidTargetNumber,
        Error::TargetNotFound,
        Error::EncodingFailed,
        Error::NoFrameYet,
    ];
    for e in &errors {
        assert!(!e.message().is_empty());
    }
}
