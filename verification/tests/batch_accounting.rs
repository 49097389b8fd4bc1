use image_compressor_rs::batch::{should_skip, tally_outcomes, BatchReport, FileOutcome};
use image_compressor_rs::paths::{extension_of, map_destination, replace_extension};
use image_compressor_rs::stats::CompressionStats;

#[test]
fn skip_policy_truth_table() {
    assert!(should_skip(true, false));
    assert!(!should_skip(true, true));
    assert!(!should_skip(false, false));
    assert!(!should_skip(false, true));
}

#[test]
fn tally_counts_every_outcome_once() {
    let outcomes = vec![
        FileOutcome::Compressed(CompressionStats::new(1_000, 400)),
        FileOutcome::Failed,
        FileOutcome::Compressed(CompressionStats::new(2_000, 600)),
        FileOutcome::Skipped,
        FileOutcome::Compressed(CompressionStats::new(500, 500)),
    ];
    let report = tally_outcomes(&outcomes);
    assert_eq!(report.compressed, 3);
    assert_eq!(report.failed, 1);
    assert_eq!(report.skipped, 1);
    assert_eq!(
        report.compressed + report.failed + report.skipped,
        outcomes.len()
    );
    assert_eq!(report.total_original_bytes, 3_500);
    assert_eq!(report.total_compressed_bytes, 1_500);
}

#[test]
fn single_failure_leaves_the_rest_counted() {
    let outcomes = vec![
        FileOutcome::Compressed(CompressionStats::new(10, 5)),
        FileOutcome::Compressed(CompressionStats::new(10, 5)),
        FileOutcome::Failed,
        FileOutcome::Compressed(CompressionStats::new(10, 5)),
    ];
    let report = tally_outcomes(&outcomes);
    assert_eq!(report.failed, 1);
    assert_eq!(report.compressed, 3);
    assert_eq!(report.skipped, 0);
}

#[test]
fn skipped_files_are_not_failures() {
    let outcomes = vec![FileOutcome::Skipped, FileOutcome::Skipped];
    let report = tally_outcomes(&outcomes);
    assert_eq!(report.skipped, 2);
    assert_eq!(report.failed, 0);
    assert_eq!(report.compressed, 0);
    assert_eq!(report.total_original_bytes, 0);
}

#[test]
fn empty_batch_report_is_zero() {
    let report: BatchReport = tally_outcomes(&Vec::new());
    assert_eq!(report.compressed, 0);
    assert_eq!(report.skipped, 0);
    assert_eq!(report.failed, 0);
}

#[test]
fn destination_mapping_rewrites_extension() {
    assert_eq!(map_destination("out", "sub/a.jpg", "webp"), "out/sub/a.webp");
    assert_eq!(map_destination("out/", "b.png", "jpg"), "out/b.jpg");
    assert_eq!(map_destination("out", "noext", "webp"), "out/noext.webp");
}

#[test]
fn extension_helpers_follow_path_rules() {
    assert_eq!(extension_of("dir/a.tar.gz").unwrap(), "gz");
    assert_eq!(extension_of("dir/a."), Some(String::new()));
    assert!(extension_of("dir/noext").is_none());
    assert!(extension_of("dir.d/noext").is_none());
    assert!(extension_of(".hidden").is_none());
    assert_eq!(replace_extension("dir/a.tar.gz", "webp"), "dir/a.tar.webp");
    assert_eq!(replace_extension(".hidden", "png"), ".hidden.png");
}
