//! Verified core of an image-compression orchestrator.
//!
//! The library resolves output formats from extension tokens, validates and
//! applies resize policy, dispatches decoded images to format-specific
//! encoders, and aggregates batch statistics. The byte-level codecs are
//! outside collaborators reached through a small set of trusted wrappers;
//! everything around them — format resolution, option mapping, dispatch,
//! path mapping, statistics — is verified.

pub mod text;
pub mod errors;
pub mod format;
pub mod resize;
pub mod options;
pub mod stats;
pub mod batch;
pub mod paths;
pub mod codec;
pub mod pipeline;
pub mod bridge;

pub use errors::CompressError;
pub use format::{normalize_extension, OutputFormat};
pub use options::{build_compress_options, CompressOptions};
pub use resize::{parse_resize, ResizeMode, ResizeOptions, ResizeRequest};
pub use stats::{format_size, CompressionStats};
pub use batch::{BatchReport, FileOutcome};
pub use pipeline::{compress_bytes, AvifRequest, CompressOutcome};
