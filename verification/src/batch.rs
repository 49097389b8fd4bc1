//! Batch orchestration core: the per-file skip policy, the report
//! accumulator, and the fold that tallies per-file outcomes. The directory
//! walk itself is I/O and lives with the caller; every decision and every
//! count is made here.

use vstd::prelude::*;
use vstd::string::*;
use crate::stats::{CompressionStats, savings_permille};
use crate::text;

verus! {

/// Aggregate over a directory run. Counts are best-effort tallies,
/// saturating at the machine limits; they are never rolled back.
#[derive(Debug, Clone, Copy)]
pub struct BatchReport {
    pub compressed: usize,
    pub skipped: usize,
    pub failed: usize,
    pub total_original_bytes: u64,
    pub total_compressed_bytes: u64,
}

/// Saturating increment for counters.
pub open spec fn sat_inc(a: int) -> int {
    if a + 1 > usize::MAX { a } else { a + 1 }
}

/// Saturating 64-bit addition for byte totals.
pub open spec fn sat_add64(a: int, b: int) -> int {
    if a + b > u64::MAX { u64::MAX as int } else { a + b }
}

/// The outcome of one file in a batch.
#[derive(Debug, Clone, Copy)]
pub enum FileOutcome {
    /// The file was compressed; carries its stats.
    Compressed(CompressionStats),
    /// The destination pre-existed and overwriting was not allowed.
    Skipped,
    /// Path mapping or the per-file pipeline failed.
    Failed,
}

/// The empty report.
pub open spec fn empty_report() -> BatchReport {
    BatchReport {
        compressed: 0,
        skipped: 0,
        failed: 0,
        total_original_bytes: 0,
        total_compressed_bytes: 0,
    }
}

/// One outcome applied to a report.
pub open spec fn apply_outcome_spec(r: BatchReport, o: FileOutcome) -> BatchReport {
    match o {
        FileOutcome::Compressed(stats) => BatchReport {
            compressed: sat_inc(r.compressed as int) as usize,
            total_original_bytes: sat_add64(
                r.total_original_bytes as int,
                stats.original_bytes as int,
            ) as u64,
            total_compressed_bytes: sat_add64(
                r.total_compressed_bytes as int,
                stats.compressed_bytes as int,
            ) as u64,
            ..r
        },
        FileOutcome::Skipped => BatchReport { skipped: sat_inc(r.skipped as int) as usize, ..r },
        FileOutcome::Failed => BatchReport { failed: sat_inc(r.failed as int) as usize, ..r },
    }
}

/// The report a sequence of outcomes folds to.
pub open spec fn report_of(outcomes: Seq<FileOutcome>) -> BatchReport
    decreases outcomes.len(),
{
    if outcomes.len() == 0 {
        empty_report()
    } else {
        apply_outcome_spec(report_of(outcomes.drop_last()), outcomes.last())
    }
}

pub open spec fn count_compressed(outcomes: Seq<FileOutcome>) -> int {
    outcomes.filter(|o: FileOutcome| o is Compressed).len() as int
}

pub open spec fn count_skipped(outcomes: Seq<FileOutcome>) -> int {
    outcomes.filter(|o: FileOutcome| o is Skipped).len() as int
}

pub open spec fn count_failed(outcomes: Seq<FileOutcome>) -> int {
    outcomes.filter(|o: FileOutcome| o is Failed).len() as int
}

/// Failure isolation and the skip law, at the accounting level: folding any
/// outcome sequence counts every file exactly once — each skipped file adds
/// one to `skipped` and nothing else, each failure adds one to `failed`,
/// and the three counters always sum to the number of files.
pub proof fn lemma_batch_accounting(outcomes: Seq<FileOutcome>)
    requires
        outcomes.len() <= usize::MAX,
    ensures
        report_of(outcomes).compressed == count_compressed(outcomes),
        report_of(outcomes).skipped == count_skipped(outcomes),
        report_of(outcomes).failed == count_failed(outcomes),
        report_of(outcomes).compressed + report_of(outcomes).skipped + report_of(outcomes).failed
            == outcomes.len(),
    decreases outcomes.len(),
{
    reveal(Seq::filter);
    if outcomes.len() > 0 {
        lemma_batch_accounting(outcomes.drop_last());
    }
}

impl BatchReport {
    /// The report of an empty batch.
    pub fn new() -> (r: Self)
        ensures
            r == empty_report(),
    {
        BatchReport {
            compressed: 0,
            skipped: 0,
            failed: 0,
            total_original_bytes: 0,
            total_compressed_bytes: 0,
        }
    }

    /// Records one file's outcome.
    pub fn record(&mut self, outcome: &FileOutcome)
        ensures
            *final(self) == apply_outcome_spec(*old(self), *outcome),
    {
        match outcome {
            FileOutcome::Compressed(stats) => {
                self.compressed = sat_inc_usize(self.compressed);
                self.total_original_bytes = sat_add_u64(
                    self.total_original_bytes,
                    stats.original_bytes,
                );
                self.total_compressed_bytes = sat_add_u64(
                    self.total_compressed_bytes,
                    stats.compressed_bytes,
                );
            },
            FileOutcome::Skipped => {
                self.skipped = sat_inc_usize(self.skipped);
            },
            FileOutcome::Failed => {
                self.failed = sat_inc_usize(self.failed);
            },
        }
    }
}

impl Default for BatchReport {
    fn default() -> (r: Self)
        ensures
            r == empty_report(),
    {
        BatchReport::new()
    }
}

fn sat_inc_usize(a: usize) -> (r: usize)
    ensures
        r == sat_inc(a as int),
{
    if a == usize::MAX {
        a
    } else {
        a + 1
    }
}

fn sat_add_u64(a: u64, b: u64) -> (r: u64)
    ensures
        r == sat_add64(a as int, b as int),
{
    if b > u64::MAX - a {
        u64::MAX
    } else {
        a + b
    }
}

/// Tallies a whole sequence of outcomes into one report.
pub fn tally_outcomes(outcomes: &Vec<FileOutcome>) -> (r: BatchReport)
    ensures
        r == report_of(outcomes@),
{
    let mut report = BatchReport::new();
    let n = outcomes.len();
    let mut i: usize = 0;
    while i < n
        invariant
            i <= n,
            n == outcomes@.len(),
            report == report_of(outcomes@.subrange(0, i as int)),
        decreases n - i,
    {
        report.record(&outcomes[i]);
        proof {
            let p = outcomes@.subrange(0, i + 1);
            assert(p.drop_last() =~= outcomes@.subrange(0, i as int));
            assert(p.last() == outcomes@[i as int]);
        }
        i += 1;
    }
    proof {
        assert(outcomes@.subrange(0, n as int) =~= outcomes@);
    }
    report
}

/// The skip policy: a file is skipped exactly when its mapped destination
/// already exists and overwriting was not allowed.
pub fn should_skip(destination_exists: bool, overwrite: bool) -> (r: bool)
    ensures
        r <==> (destination_exists && !overwrite),
{
    destination_exists && !overwrite
}

/// What the per-file success line prints.
pub open spec fn compressed_line_spec(source: Seq<char>, target: Seq<char>, o: int, c: int) -> Seq<
    char,
> {
    "compressed "@ + source + " \u{2192} "@ + target + " ("@ + crate::stats::format_size_spec(o)
        + " \u{2192} "@ + crate::stats::format_size_spec(c) + ", saved "@
        + crate::stats::permille_chars(savings_permille(o, c)) + "%)"@
}

/// The one-line outcome printed for each successfully compressed file.
pub fn compressed_line_text(source: &str, target: &str, stats: &CompressionStats) -> (r: String)
    ensures
        r@ == compressed_line_spec(
            source@,
            target@,
            stats.original_bytes as int,
            stats.compressed_bytes as int,
        ),
{
    let fresh = CompressionStats::new(stats.original_bytes, stats.compressed_bytes);
    proof {
        crate::stats::lemma_savings_bounds(
            stats.original_bytes as int,
            stats.compressed_bytes as int,
        );
    }
    let mut s = String::from_str("compressed ");
    s.append(source);
    s.append(" \u{2192} ");
    s.append(target);
    s.append(" (");
    s.append(crate::stats::format_size(stats.original_bytes).as_str());
    s.append(" \u{2192} ");
    s.append(crate::stats::format_size(stats.compressed_bytes).as_str());
    s.append(", saved ");
    s.append(crate::stats::permille_text(fresh.savings_permille).as_str());
    s.append("%)");
    proof {
        assert(s@ =~= compressed_line_spec(
            source@,
            target@,
            stats.original_bytes as int,
            stats.compressed_bytes as int,
        ));
    }
    s
}

/// Savings of the whole batch, in permille of the original bytes.
pub open spec fn batch_savings_permille(r: BatchReport) -> int {
    savings_permille(r.total_original_bytes as int, r.total_compressed_bytes as int)
}

/// What `batch_summary_text` prints.
pub open spec fn batch_summary_spec(r: BatchReport) -> Seq<char> {
    let saved = if r.total_original_bytes >= r.total_compressed_bytes {
        r.total_original_bytes - r.total_compressed_bytes
    } else {
        0
    };
    "batch complete: compressed="@ + text::dec_rep(r.compressed as nat) + ", failed="@
        + text::dec_rep(r.failed as nat) + ", skipped="@ + text::dec_rep(r.skipped as nat)
        + ", saved "@ + crate::stats::format_size_spec(saved) + " ("@
        + crate::stats::permille_chars(batch_savings_permille(r)) + "%)"@
}

/// The one-line aggregate summary of a batch run.
pub fn batch_summary_text(report: &BatchReport) -> (r: String)
    ensures
        r@ == batch_summary_spec(*report),
{
    let saved = if report.total_original_bytes >= report.total_compressed_bytes {
        report.total_original_bytes - report.total_compressed_bytes
    } else {
        0
    };
    let stats = CompressionStats::new(report.total_original_bytes, report.total_compressed_bytes);
    proof {
        crate::stats::lemma_savings_bounds(
            report.total_original_bytes as int,
            report.total_compressed_bytes as int,
        );
    }
    let mut s = String::from_str("batch complete: compressed=");
    let mut digits: Vec<char> = Vec::new();
    text::push_dec(report.compressed as u64, &mut digits);
    s.append(text::chars_to_string(&digits).as_str());
    s.append(", failed=");
    let mut digits2: Vec<char> = Vec::new();
    text::push_dec(report.failed as u64, &mut digits2);
    s.append(text::chars_to_string(&digits2).as_str());
    s.append(", skipped=");
    let mut digits3: Vec<char> = Vec::new();
    text::push_dec(report.skipped as u64, &mut digits3);
    s.append(text::chars_to_string(&digits3).as_str());
    s.append(", saved ");
    s.append(crate::stats::format_size(saved).as_str());
    s.append(" (");
    s.append(crate::stats::permille_text(stats.savings_permille).as_str());
    s.append("%)");
    proof {
        assert(s@ =~= batch_summary_spec(*report));
    }
    s
}

} // verus!
