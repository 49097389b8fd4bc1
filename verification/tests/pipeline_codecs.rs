use image_compressor_rs::batch::{tally_outcomes, FileOutcome};
use image_compressor_rs::errors::CompressError;
use image_compressor_rs::stats::CompressionStats;
use image_compressor_rs::options::CompressOptions;
use image_compressor_rs::pipeline::{
    check_preconditions, compress_bytes, probe_dimensions, CompressOutcome,
};
use image_compressor_rs::resize::{ResizeMode, ResizeOptions};

fn solid_png(width: u32, height: u32) -> Vec<u8> {
    let img = image::DynamicImage::ImageRgb8(image::RgbImage::from_fn(width, height, |x, y| {
        image::Rgb([(x % 256) as u8, (y % 256) as u8, 90])
    }));
    let mut buf = Vec::new();
    img.write_to(&mut std::io::Cursor::new(&mut buf), image::ImageFormat::Png)
        .unwrap();
    buf
}

fn solid_jpeg(width: u32, height: u32) -> Vec<u8> {
    let img = image::DynamicImage::ImageRgb8(image::RgbImage::from_fn(width, height, |x, y| {
        image::Rgb([(x % 200) as u8, 80, (y % 200) as u8])
    }));
    let mut buf = Vec::new();
    img.write_to(&mut std::io::Cursor::new(&mut buf), image::ImageFormat::Jpeg)
        .unwrap();
    buf
}

fn encoded(outcome: CompressOutcome) -> Vec<u8> {
    match outcome {
        CompressOutcome::Encoded(b) => b,
        CompressOutcome::AvifPending(_) => panic!("expected encoded bytes"),
    }
}

#[test]
fn png_fast_path_never_grows_and_is_stable() {
    let input = solid_png(16, 16);
    let opts = CompressOptions::default();
    let once = encoded(compress_bytes(&input, "out.png", &opts).unwrap());
    assert!(once.len() <= input.len());
    let twice = encoded(compress_bytes(&once, "out.png", &opts).unwrap());
    assert!(twice.len() <= once.len());
}

#[test]
fn png_to_jpeg_roundtrip_keeps_dimensions() {
    let input = solid_png(100, 100);
    let opts = CompressOptions {
        quality: Some(90),
        ..CompressOptions::default()
    };
    let out = encoded(compress_bytes(&input, "out.jpg", &opts).unwrap());
    assert!(!out.is_empty());
    assert_eq!(image::guess_format(&out).unwrap(), image::ImageFormat::Jpeg);
    assert_eq!(probe_dimensions(&out), Some((100, 100)));
}

#[test]
fn exact_resize_forces_both_dimensions() {
    let input = solid_png(100, 80);
    let opts = CompressOptions {
        resize: Some(ResizeOptions::new(50, 50, ResizeMode::Exact).unwrap()),
        ..CompressOptions::default()
    };
    let out = encoded(compress_bytes(&input, "out.png", &opts).unwrap());
    assert_eq!(image::guess_format(&out).unwrap(), image::ImageFormat::Png);
    assert_eq!(probe_dimensions(&out), Some((50, 50)));
}

#[test]
fn fit_resize_bounds_dimensions_preserving_aspect() {
    let input = solid_png(100, 50);
    let opts = CompressOptions {
        resize: Some(ResizeOptions::new(50, 50, ResizeMode::Fit).unwrap()),
        ..CompressOptions::default()
    };
    let out = encoded(compress_bytes(&input, "out.png", &opts).unwrap());
    assert_eq!(probe_dimensions(&out), Some((50, 25)));
}

#[test]
fn webp_target_produces_webp_bytes() {
    let input = solid_png(32, 24);
    let opts = CompressOptions::default();
    let out = encoded(compress_bytes(&input, "out.webp", &opts).unwrap());
    assert!(!out.is_empty());
    assert_eq!(image::guess_format(&out).unwrap(), image::ImageFormat::WebP);
    assert_eq!(probe_dimensions(&out), Some((32, 24)));
    let lossless_opts = CompressOptions {
        lossless: true,
        ..CompressOptions::default()
    };
    let lossless = encoded(compress_bytes(&input, "out.webp", &lossless_opts).unwrap());
    assert!(!lossless.is_empty());
    assert_eq!(probe_dimensions(&lossless), Some((32, 24)));
}

#[test]
fn webp_quality_above_the_encoder_maximum_is_rejected() {
    let input = solid_png(8, 8);
    let too_high = CompressOptions {
        quality: Some(150),
        ..CompressOptions::default()
    };
    match compress_bytes(&input, "o.webp", &too_high) {
        Err(CompressError::EncodeFailed(msg)) => {
            assert_eq!(msg, "quality is above the WebP encoder's maximum of 100")
        }
        other => panic!("expected an encode failure, got {:?}", other.map(|_| ())),
    }
    let at_max = CompressOptions {
        quality: Some(100),
        ..CompressOptions::default()
    };
    let out = encoded(compress_bytes(&input, "o.webp", &at_max).unwrap());
    assert!(!out.is_empty());
    // lossless ignores the quality setting entirely
    let lossless = CompressOptions {
        quality: Some(150),
        lossless: true,
        ..CompressOptions::default()
    };
    assert!(compress_bytes(&input, "o.webp", &lossless).is_ok());
}

#[test]
fn jpeg_input_to_png_target_reencodes() {
    let input = solid_jpeg(20, 20);
    let out = encoded(compress_bytes(&input, "out.png", &CompressOptions::default()).unwrap());
    assert_eq!(image::guess_format(&out).unwrap(), image::ImageFormat::Png);
    assert_eq!(probe_dimensions(&out), Some((20, 20)));
}

#[test]
fn avif_target_yields_prepared_request() {
    let input = solid_png(8, 6);
    match compress_bytes(&input, "out.avif", &CompressOptions::default()).unwrap() {
        CompressOutcome::AvifPending(req) => {
            assert_eq!((req.width, req.height), (8, 6));
            assert_eq!(req.rgba.len(), 8 * 6 * 4);
            assert_eq!(req.quality, 80);
            assert_eq!(req.alpha_quality, 80);
            assert_eq!(req.speed, 4);
        }
        CompressOutcome::Encoded(_) => panic!("expected a pending AVIF request"),
    }
    let lossless_opts = CompressOptions {
        lossless: true,
        ..CompressOptions::default()
    };
    match compress_bytes(&input, "out.avif", &lossless_opts).unwrap() {
        CompressOutcome::AvifPending(req) => assert_eq!(req.quality, 100),
        CompressOutcome::Encoded(_) => panic!("expected a pending AVIF request"),
    }
}

#[test]
fn progressive_flag_switches_the_jpeg_scan_mode() {
    let input = solid_png(64, 64);
    let baseline_opts = CompressOptions::default();
    let progressive_opts = CompressOptions {
        progressive: true,
        ..CompressOptions::default()
    };
    let baseline = encoded(compress_bytes(&input, "o.jpg", &baseline_opts).unwrap());
    let progressive = encoded(compress_bytes(&input, "o.jpg", &progressive_opts).unwrap());
    // scan optimization keeps the output a decodable progressive JPEG
    let has_sof2 = |b: &[u8]| b.windows(2).any(|w| w == [0xFF, 0xC2]);
    assert!(has_sof2(&progressive));
    assert!(!baseline.is_empty());
    assert_eq!(probe_dimensions(&baseline), Some((64, 64)));
    assert_eq!(probe_dimensions(&progressive), Some((64, 64)));
}

#[test]
fn keeping_metadata_still_optimizes_png() {
    let input = solid_png(16, 16);
    let opts = CompressOptions {
        strip_metadata: false,
        ..CompressOptions::default()
    };
    let out = encoded(compress_bytes(&input, "o.png", &opts).unwrap());
    assert!(out.len() <= input.len());
    assert_eq!(probe_dimensions(&out), Some((16, 16)));
}

#[test]
fn lossless_webp_roundtrips_pixels_exactly() {
    let img = image::DynamicImage::ImageRgb8(image::RgbImage::from_fn(10, 10, |x, y| {
        image::Rgb([(23 * x % 251) as u8, (31 * y % 251) as u8, ((x + y) % 251) as u8])
    }));
    let mut input = Vec::new();
    img.write_to(&mut std::io::Cursor::new(&mut input), image::ImageFormat::Png)
        .unwrap();
    let opts = CompressOptions {
        lossless: true,
        ..CompressOptions::default()
    };
    let out = encoded(compress_bytes(&input, "o.webp", &opts).unwrap());
    let decoded = image::load_from_memory(&out).unwrap();
    assert_eq!(decoded.to_rgba8().into_raw(), img.to_rgba8().into_raw());
}

#[test]
fn corrupt_input_is_a_decode_error() {
    let garbage = vec![1u8, 2, 3, 4, 5, 6, 7, 8, 9];
    match compress_bytes(&garbage, "out.webp", &CompressOptions::default()) {
        Err(CompressError::DecodeFailed(_)) => {}
        other => panic!("expected a decode failure, got {:?}", other.map(|_| ())),
    }
}

#[test]
fn uppercase_and_long_extensions_resolve_through_the_path() {
    let input = solid_png(8, 8);
    let opts = CompressOptions::default();
    let upper = encoded(compress_bytes(&input, "out.JPG", &opts).unwrap());
    assert_eq!(image::guess_format(&upper).unwrap(), image::ImageFormat::Jpeg);
    let long = encoded(compress_bytes(&input, "out.jpeg", &opts).unwrap());
    assert_eq!(image::guess_format(&long).unwrap(), image::ImageFormat::Jpeg);
}

#[test]
fn precondition_checks_guard_the_pipeline() {
    assert!(check_preconditions(true, false, false, "in", "out").is_ok());
    assert!(check_preconditions(true, true, true, "in", "out").is_ok());
    assert!(matches!(
        check_preconditions(false, false, true, "in", "out"),
        Err(CompressError::InputNotFound(p)) if p == "in"
    ));
    let err = check_preconditions(true, true, false, "in", "out").unwrap_err();
    match err {
        CompressError::OutputExists(p) => assert_eq!(p, "out"),
        other => panic!("expected an output-exists error, got {:?}", other),
    }
}

#[test]
fn output_path_errors_come_before_codecs() {
    let input = solid_png(4, 4);
    let opts = CompressOptions::default();
    assert!(matches!(
        compress_bytes(&input, "out", &opts),
        Err(CompressError::MissingExtension)
    ));
    assert!(matches!(
        compress_bytes(&input, "out.", &opts),
        Err(CompressError::EmptyExtension)
    ));
    assert!(matches!(
        compress_bytes(&input, "out.bmp", &opts),
        Err(CompressError::UnsupportedFormat(_))
    ));
}

#[test]
fn batch_of_three_jpegs_and_garbage_isolates_the_failure() {
    let sources = vec![
        solid_jpeg(12, 12),
        solid_jpeg(16, 8),
        solid_jpeg(9, 9),
        vec![0u8, 1, 2, 3],
    ];
    let mut outcomes = Vec::new();
    for src in &sources {
        match compress_bytes(src, "mapped.webp", &CompressOptions::default()) {
            Ok(out) => {
                let bytes = encoded(out);
                outcomes.push(FileOutcome::Compressed(CompressionStats::new(
                    src.len() as u64,
                    bytes.len() as u64,
                )));
            }
            Err(_) => outcomes.push(FileOutcome::Failed),
        }
    }
    let report = tally_outcomes(&outcomes);
    assert_eq!(report.compressed, 3);
    assert_eq!(report.failed, 1);
    assert_eq!(report.skipped, 0);
}

#[test]
fn minimal_known_png_survives_the_fast_path() {
    let tiny: Vec<u8> = vec![
        137, 80, 78, 71, 13, 10, 26, 10, 0, 0, 0, 13, 73, 72, 68, 82, 0, 0, 0, 1, 0, 0, 0, 1, 8,
        6, 0, 0, 0, 31, 21, 196, 137, 0, 0, 0, 13, 73, 68, 65, 84, 120, 218, 99, 100, 96, 248, 95,
        15, 0, 2, 135, 1, 128, 235, 71, 186, 146, 0, 0, 0, 0, 73, 69, 78, 68, 174, 66, 96, 130,
    ];
    let out = encoded(compress_bytes(&tiny, "t.png", &CompressOptions::default()).unwrap());
    assert!(out.len() <= tiny.len());
    assert_eq!(probe_dimensions(&out), Some((1, 1)));
}
