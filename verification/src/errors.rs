//! The library's error type. Every failure a pipeline run can report is a
//! variant here; `message` renders the operator-facing text.

use vstd::prelude::*;
use vstd::string::*;

verus! {

/// One error kind per failure class: configuration errors are rejected
/// before any codec work, precondition errors before decode, and codec
/// errors carry the collaborator's own description.
#[derive(Debug, Clone)]
pub enum CompressError {
    /// The extension token was empty after normalization.
    EmptyExtension,
    /// The extension token names no supported output format.
    UnsupportedFormat(String),
    /// A resize dimension was zero.
    InvalidResize,
    /// The output path carries no file extension.
    MissingExtension,
    /// The input path is not an existing regular file.
    InputNotFound(String),
    /// The input directory does not exist.
    InputDirNotFound(String),
    /// The output path exists and overwriting was not allowed.
    OutputExists(String),
    /// The input bytes could not be decoded as an image.
    DecodeFailed(String),
    /// The target encoder rejected the image.
    EncodeFailed(String),
    /// Reading the input file failed.
    ReadFailed(String),
    /// Writing the output file failed.
    WriteFailed(String),
    /// Creating a directory failed.
    CreateDirFailed(String),
}

impl CompressError {
    /// The operator-facing description of this error.
    pub fn message(&self) -> (r: String)
        ensures
            r@ == self.message_spec(),
    {
        match self {
            CompressError::EmptyExtension => String::from_str("format/extension cannot be empty"),
            CompressError::UnsupportedFormat(tok) => concat_msg(
                "unsupported output format: ",
                tok,
            ),
            CompressError::InvalidResize => String::from_str(
                "resize width and height must be greater than zero",
            ),
            CompressError::MissingExtension => String::from_str(
                "output path must include a file extension",
            ),
            CompressError::InputNotFound(p) => concat_msg("input file not found: ", p),
            CompressError::InputDirNotFound(p) => concat_msg("input directory not found: ", p),
            CompressError::OutputExists(p) => concat_msg(
                "output file exists (use --overwrite to replace): ",
                p,
            ),
            CompressError::DecodeFailed(d) => concat_msg("failed to decode image: ", d),
            CompressError::EncodeFailed(d) => concat_msg("encoding failed: ", d),
            CompressError::ReadFailed(p) => concat_msg("failed to read input file: ", p),
            CompressError::WriteFailed(p) => concat_msg("failed to write output file: ", p),
            CompressError::CreateDirFailed(p) => concat_msg("failed to create directory: ", p),
        }
    }

    /// What `message` returns, variant by variant.
    pub open spec fn message_spec(&self) -> Seq<char> {
        match self {
            CompressError::EmptyExtension => "format/extension cannot be empty"@,
            CompressError::UnsupportedFormat(tok) => "unsupported output format: "@ + tok@,
            CompressError::InvalidResize => "resize width and height must be greater than zero"@,
            CompressError::MissingExtension => "output path must include a file extension"@,
            CompressError::InputNotFound(p) => "input file not found: "@ + p@,
            CompressError::InputDirNotFound(p) => "input directory not found: "@ + p@,
            CompressError::OutputExists(p) => "output file exists (use --overwrite to replace): "@
                + p@,
            CompressError::DecodeFailed(d) => "failed to decode image: "@ + d@,
            CompressError::EncodeFailed(d) => "encoding failed: "@ + d@,
            CompressError::ReadFailed(p) => "failed to read input file: "@ + p@,
            CompressError::WriteFailed(p) => "failed to write output file: "@ + p@,
            CompressError::CreateDirFailed(p) => "failed to create directory: "@ + p@,
        }
    }
}

/// A fixed prefix followed by a caller-supplied detail string.
fn concat_msg(prefix: &str, detail: &String) -> (r: String)
    ensures
        r@ == prefix@ + detail@,
{
    let mut s = String::from_str(prefix);
    s.append(detail.as_str());
    s
}

} // verus!
