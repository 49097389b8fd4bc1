use image_compressor_rs::batch::{batch_summary_text, compressed_line_text, BatchReport};
use image_compressor_rs::stats::{format_size, permille_text, CompressionStats};

#[test]
fn format_size_display() {
    assert_eq!(format_size(500), "500 B");
    assert_eq!(format_size(1_500), "2 KB");
    assert_eq!(format_size(2_400_000), "2.4 MB");
}

#[test]
fn format_size_boundaries() {
    assert_eq!(format_size(0), "0 B");
    assert_eq!(format_size(999), "999 B");
    assert_eq!(format_size(1_000), "1 KB");
    assert_eq!(format_size(999_999), "1000 KB");
    assert_eq!(format_size(1_000_000), "1.0 MB");
}

#[test]
fn savings_is_zero_for_empty_original() {
    let s = CompressionStats::new(0, 42);
    assert_eq!(s.savings_permille, 0);
}

#[test]
fn savings_is_zero_when_nothing_saved() {
    let s = CompressionStats::new(100, 100);
    assert_eq!(s.savings_permille, 0);
}

#[test]
fn savings_is_full_when_compressed_to_nothing() {
    let s = CompressionStats::new(100, 0);
    assert_eq!(s.savings_permille, 1000);
}

#[test]
fn savings_exact_value_and_negative_case() {
    let s = CompressionStats::new(200, 150);
    assert_eq!(s.savings_permille, 250);
    let neg = CompressionStats::new(100, 250);
    assert_eq!(neg.savings_permille, -1500);
    assert!(neg.savings_permille <= 1000);
}

#[test]
fn permille_renders_one_decimal() {
    assert_eq!(permille_text(500), "50.0");
    assert_eq!(permille_text(123), "12.3");
    assert_eq!(permille_text(-1500), "-150.0");
    assert_eq!(permille_text(0), "0.0");
}

#[test]
fn batch_summary_line() {
    let mut report = BatchReport::new();
    report.compressed = 2;
    report.failed = 1;
    report.skipped = 0;
    report.total_original_bytes = 2_000_000;
    report.total_compressed_bytes = 1_000_000;
    assert_eq!(
        batch_summary_text(&report),
        "batch complete: compressed=2, failed=1, skipped=0, saved 1.0 MB (50.0%)"
    );
}

#[test]
fn compressed_file_line() {
    let stats = CompressionStats::new(1_000, 500);
    assert_eq!(
        compressed_line_text("a.png", "a.webp", &stats),
        "compressed a.png \u{2192} a.webp (1 KB \u{2192} 500 B, saved 50.0%)"
    );
}
