use image_compressor_rs::errors::CompressError;
use image_compressor_rs::format::{normalize_extension, OutputFormat};

#[test]
fn parse_supported_output_format_extensions() {
    assert_eq!(
        OutputFormat::from_extension("jpg").unwrap(),
        OutputFormat::Jpeg
    );
    assert_eq!(
        OutputFormat::from_extension("jpeg").unwrap(),
        OutputFormat::Jpeg
    );
    assert_eq!(
        OutputFormat::from_extension("png").unwrap(),
        OutputFormat::Png
    );
    assert_eq!(
        OutputFormat::from_extension("webp").unwrap(),
        OutputFormat::WebP
    );
    assert_eq!(
        OutputFormat::from_extension("avif").unwrap(),
        OutputFormat::Avif
    );
}

#[test]
fn reject_unknown_output_extension() {
    assert!(OutputFormat::from_extension("bmp").is_err());
    assert!(OutputFormat::from_extension("gif").is_err());
    assert!(OutputFormat::from_extension("tiff").is_err());
}

#[test]
fn normalize_extension_values() {
    assert_eq!(normalize_extension(" JPG ").unwrap(), "jpg");
    assert_eq!(normalize_extension(".WebP").unwrap(), "webp");
    assert_eq!(normalize_extension("AVIF").unwrap(), "avif");
}

#[test]
fn reject_empty_extension() {
    assert!(normalize_extension("").is_err());
    assert!(normalize_extension("  ").is_err());
    assert!(normalize_extension(".").is_err());
}

#[test]
fn resolve_with_casing_dot_and_whitespace() {
    assert_eq!(
        OutputFormat::from_extension(" .PNG ").unwrap(),
        OutputFormat::Png
    );
    assert_eq!(
        OutputFormat::from_extension(".JpEg").unwrap(),
        OutputFormat::Jpeg
    );
    assert_eq!(
        OutputFormat::from_extension("\tWEBP\n").unwrap(),
        OutputFormat::WebP
    );
}

#[test]
fn distinct_errors_for_empty_and_unknown() {
    assert!(matches!(
        OutputFormat::from_extension("  "),
        Err(CompressError::EmptyExtension)
    ));
    match OutputFormat::from_extension("BMP") {
        Err(CompressError::UnsupportedFormat(tok)) => assert_eq!(tok, "bmp"),
        other => panic!("expected an unsupported-format error, got {:?}", other),
    }
}

#[test]
fn error_messages_name_the_offender() {
    let err = OutputFormat::from_extension("tga").unwrap_err();
    assert_eq!(err.message(), "unsupported output format: tga");
    let empty = OutputFormat::from_extension(".").unwrap_err();
    assert_eq!(empty.message(), "format/extension cannot be empty");
}
