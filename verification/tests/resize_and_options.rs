use image_compressor_rs::options::{build_compress_options, CompressOptions};
use image_compressor_rs::resize::{parse_resize, ResizeMode, ResizeOptions, ResizeRequest};

#[test]
fn validate_resize_bounds() {
    assert!(ResizeOptions::new(0, 200, ResizeMode::Fit).is_err());
    assert!(ResizeOptions::new(200, 0, ResizeMode::Fit).is_err());
    assert!(ResizeOptions::new(200, 100, ResizeMode::Fit).is_ok());
}

#[test]
fn resize_options_preserve_values() {
    let ro = ResizeOptions::new(1920, 1080, ResizeMode::Exact).unwrap();
    assert_eq!(ro.width, 1920);
    assert_eq!(ro.height, 1080);
    assert_eq!(ro.mode, ResizeMode::Exact);
}

#[test]
fn default_compress_options() {
    let opts = CompressOptions::default();
    assert!(!opts.overwrite);
    assert!(opts.quality.is_none());
    assert!(!opts.lossless);
    assert!(!opts.progressive);
    assert!(opts.strip_metadata);
    assert!(opts.resize.is_none());
    assert!(opts.png_level.is_none());
    assert!(opts.avif_speed.is_none());
}

#[test]
fn parse_resize_accepts_width_x_height() {
    let r = parse_resize("1920x1080").unwrap();
    assert_eq!(r.width, 1920);
    assert_eq!(r.height, 1080);
}

#[test]
fn parse_resize_normalizes_case_and_whitespace() {
    let r = parse_resize("  200X100 ").unwrap();
    assert_eq!(r.width, 200);
    assert_eq!(r.height, 100);
}

#[test]
fn parse_resize_rejects_bad_input() {
    assert_eq!(
        parse_resize("1920-1080").unwrap_err(),
        "resize must be in WIDTHxHEIGHT format (example: 1920x1080)"
    );
    assert_eq!(
        parse_resize("wx100").unwrap_err(),
        "resize width must be an integer"
    );
    assert_eq!(
        parse_resize("100xh").unwrap_err(),
        "resize height must be an integer"
    );
    assert_eq!(
        parse_resize("0x100").unwrap_err(),
        "resize width and height must be greater than zero"
    );
}

#[test]
fn build_options_maps_flags() {
    let opts = build_compress_options(
        true,
        Some(90),
        true,
        true,
        true,
        Some(ResizeRequest {
            width: 640,
            height: 480,
        }),
        ResizeMode::Exact,
        Some(5),
        Some(9),
    )
    .unwrap();
    assert!(opts.overwrite);
    assert_eq!(opts.quality, Some(90));
    assert!(opts.lossless);
    assert!(opts.progressive);
    assert!(!opts.strip_metadata);
    let ro = opts.resize.unwrap();
    assert_eq!((ro.width, ro.height, ro.mode), (640, 480, ResizeMode::Exact));
    assert_eq!(opts.png_level, Some(5));
    assert_eq!(opts.avif_speed, Some(9));
}

#[test]
fn build_options_rejects_zero_resize() {
    let r = build_compress_options(
        false,
        None,
        false,
        false,
        false,
        Some(ResizeRequest {
            width: 0,
            height: 10,
        }),
        ResizeMode::Fit,
        None,
        None,
    );
    assert!(r.is_err());
}
