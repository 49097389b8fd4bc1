//! The single-file pipeline: resolve the target format from the output
//! path, take the PNG fast path when it applies, otherwise decode, apply
//! the resize policy, and dispatch to the format's encoder.
//!
//! The pipeline works on bytes; reading the input file and writing the
//! output are the caller's I/O. AVIF is special: its encoder cannot be
//! linked here, so the pipeline returns the fully prepared encode request
//! (pixels and mapped options) for the caller to run.

use vstd::prelude::*;
use vstd::string::*;
use crate::codec;
use crate::codec::{prepared_state, DecodedImage};
use crate::errors::CompressError;
use crate::format::OutputFormat;
use crate::options;
use crate::options::CompressOptions;
use crate::paths;

verus! {

/// A fully prepared AVIF encode request: the flattened pixels and the
/// mapped encoder options (quality forced to 100 when lossless, alpha at
/// the same quality, speed defaulting to 4).
pub struct AvifRequest {
    pub rgba: Vec<u8>,
    pub width: u32,
    pub height: u32,
    pub quality: u8,
    pub alpha_quality: u8,
    pub speed: u8,
}

/// What one pipeline run produces: the compressed bytes, or, for AVIF,
/// the prepared encode request.
pub enum CompressOutcome {
    Encoded(Vec<u8>),
    AvifPending(AvifRequest),
}

/// The JPEG result: scan mode chosen by the progressive flag.
pub open spec fn jpeg_expected(prep: Seq<u8>, o: CompressOptions) -> Seq<u8> {
    if o.progressive {
        codec::jpeg_progressive(
            codec::rgb8_samples(prep),
            codec::abs_width(prep),
            codec::abs_height(prep),
            options::jpeg_quality(o),
        )
    } else {
        codec::jpeg_baseline(
            codec::rgb8_samples(prep),
            codec::abs_width(prep),
            codec::abs_height(prep),
            options::jpeg_quality(o),
        )
    }
}

/// The WebP result: path chosen by the lossless flag.
pub open spec fn webp_expected(prep: Seq<u8>, o: CompressOptions) -> Seq<u8> {
    if o.lossless {
        codec::webp_lossless(codec::rgba8_samples(prep), codec::abs_width(prep), codec::abs_height(prep))
    } else {
        codec::webp_lossy(
            codec::rgba8_samples(prep),
            codec::abs_width(prep),
            codec::abs_height(prep),
            options::webp_quality(o),
        )
    }
}

/// What holds of the result on the JPEG path: success is owed exactly
/// within libjpeg's 65500-per-axis dimension limit.
pub open spec fn jpeg_post(prep: Seq<u8>, o: CompressOptions, r: Result<
    CompressOutcome,
    CompressError,
>) -> bool {
    &&& ((1 <= codec::abs_width(prep) <= 65500 && 1 <= codec::abs_height(prep) <= 65500) <==> r
        is Ok)
    &&& (r matches Ok(out) ==> (out matches CompressOutcome::Encoded(b) && b@ == jpeg_expected(
        prep,
        o,
    ) && b@.len() > 0))
    &&& (r is Err ==> r->Err_0 is EncodeFailed)
}

/// What holds of the result on the decode-then-optimize PNG path: it
/// fails exactly when the PNG re-encode or the optimizer fails.
pub open spec fn png_slow_post(prep: Seq<u8>, o: CompressOptions, r: Result<
    CompressOutcome,
    CompressError,
>) -> bool {
    let enc = codec::png_reencoded(prep);
    &&& (r is Ok <==> (enc is Some && codec::png_optimized(
        enc->Some_0,
        options::png_preset(o),
        o.strip_metadata,
    ) is Some))
    &&& (r matches Ok(out) ==> (out matches CompressOutcome::Encoded(b) && b@ == codec::png_optimized(
        enc->Some_0,
        options::png_preset(o),
        o.strip_metadata,
    )->Some_0))
    &&& (r is Err ==> r->Err_0 is EncodeFailed)
}

/// What holds of the result on the WebP path: success is owed exactly
/// within libwebp's dimension limits and, on the lossy path, for a
/// quality libwebp accepts (at most 100).
pub open spec fn webp_post(prep: Seq<u8>, o: CompressOptions, r: Result<
    CompressOutcome,
    CompressError,
>) -> bool {
    &&& ((1 <= codec::abs_width(prep) <= 16383 && 1 <= codec::abs_height(prep) <= 16383 && (
    o.lossless || options::webp_quality(o) <= 100)) <==> r is Ok)
    &&& (r matches Ok(out) ==> (out matches CompressOutcome::Encoded(b) && b@ == webp_expected(
        prep,
        o,
    )))
    &&& (r is Err ==> r->Err_0 is EncodeFailed)
}

/// What holds of the result on the AVIF path: planning always succeeds and
/// the request carries the flattened pixels with the mapped options.
pub open spec fn avif_post(prep: Seq<u8>, o: CompressOptions, r: Result<
    CompressOutcome,
    CompressError,
>) -> bool {
    &&& r is Ok
    &&& (r matches Ok(out) ==> (out matches CompressOutcome::AvifPending(q) && {
        &&& q.rgba@ == codec::rgba8_samples(prep)
        &&& q.width == codec::abs_width(prep)
        &&& q.height == codec::abs_height(prep)
        &&& q.quality == options::avif_quality(o)
        &&& q.alpha_quality == options::avif_quality(o)
        &&& q.speed == options::avif_speed(o)
    }))
}

/// What holds of the result once the format is resolved.
pub open spec fn dispatch_post(
    fmt: OutputFormat,
    input: Seq<u8>,
    o: CompressOptions,
    r: Result<CompressOutcome, CompressError>,
) -> bool {
    if fmt is Png && o.resize is None && codec::png_sniffed(input) {
        // the PNG fast path: optimize the original bytes in place, never
        // growing them, with no decode/re-encode round trip
        &&& (r is Ok <==> codec::png_optimized(input, options::png_preset(o), o.strip_metadata)
            is Some)
        &&& (r matches Ok(out) ==> (out matches CompressOutcome::Encoded(b) && b@
            == codec::png_optimized(input, options::png_preset(o), o.strip_metadata)->Some_0
            && b@.len() <= input.len()))
        &&& (r is Err ==> r->Err_0 is EncodeFailed)
    } else {
        &&& (codec::decoded_image(input) is None <==> (r is Err && r->Err_0 is DecodeFailed))
        &&& (codec::decoded_image(input) matches Some(dec) ==> {
            let prep = prepared_state(dec, o.resize);
            &&& (o.resize matches Some(ro) ==> {
                // the resize policy, visible at the pipeline: Exact hits
                // the requested dimensions, Fit stays within the bounds
                &&& (ro.mode is Exact ==> codec::abs_width(prep) == ro.width
                    && codec::abs_height(prep) == ro.height)
                &&& ((ro.mode is Fit && ro.width >= 1 && ro.height >= 1)
                    ==> codec::abs_width(prep) <= ro.width && codec::abs_height(prep)
                    <= ro.height)
            })
            &&& match fmt {
                OutputFormat::Jpeg => jpeg_post(prep, o, r),
                OutputFormat::Png => png_slow_post(prep, o, r),
                OutputFormat::WebP => webp_post(prep, o, r),
                OutputFormat::Avif => avif_post(prep, o, r),
            }
        })
    }
}

/// Compresses one image, handed in as bytes, to the format named by the
/// output path's extension. Resolution errors (missing extension, empty
/// or unknown token) are rejected before any codec work; then the
/// dispatch rule of `dispatch_post` governs the result.
pub fn compress_bytes(input: &Vec<u8>, output_path: &str, options: &CompressOptions) -> (r: Result<
    CompressOutcome,
    CompressError,
>)
    ensures
        !paths::has_extension(output_path@) ==> (r is Err && r->Err_0 is MissingExtension),
        paths::has_extension(output_path@) ==> ({
            let norm = crate::format::normalized_spec(paths::extension_spec(output_path@));
            &&& (norm.len() == 0 ==> (r is Err && r->Err_0 is EmptyExtension))
            &&& (norm.len() > 0 && crate::format::format_of_token(norm) is None ==> (r is Err
                && r->Err_0 is UnsupportedFormat))
            &&& (norm.len() > 0 ==> (crate::format::format_of_token(norm) matches Some(fmt)
                ==> dispatch_post(fmt, input@, *options, r)))
        }),
{
    let ext = match paths::extension_of(output_path) {
        Some(e) => e,
        None => { return Err(CompressError::MissingExtension); },
    };
    let fmt = match OutputFormat::from_extension(ext.as_str()) {
        Ok(f) => f,
        Err(e) => { return Err(e); },
    };
    let is_png_target = matches!(fmt, OutputFormat::Png);
    if is_png_target && options.resize.is_none() && codec::sniff_is_png(input) {
        let level = options::effective_png_preset(options);
        let optimized = if options.strip_metadata {
            codec::optimize_png_strip(input, level)
        } else {
            codec::optimize_png_keep(input, level)
        };
        return match optimized {
            Ok(b) => Ok(CompressOutcome::Encoded(b)),
            Err(msg) => Err(CompressError::EncodeFailed(msg)),
        };
    }
    let img = match codec::decode_and_prepare(input, options) {
        Ok(img) => img,
        Err(msg) => { return Err(CompressError::DecodeFailed(msg)); },
    };
    match fmt {
        OutputFormat::Jpeg => encode_jpeg_image(&img, options),
        OutputFormat::Png => encode_png_image(&img, options),
        OutputFormat::WebP => encode_webp_image(&img, options),
        OutputFormat::Avif => plan_avif_image(&img, options),
    }
}

/// The JPEG arm: flatten to 3-channel color and run mozjpeg with the
/// mapped quality and scan mode.
fn encode_jpeg_image(img: &DecodedImage, o: &CompressOptions) -> (r: Result<
    CompressOutcome,
    CompressError,
>)
    requires
        img.wf(),
    ensures
        jpeg_post(img.state(), *o, r),
{
    if img.width < 1 || img.width > 65500 || img.height < 1 || img.height > 65500 {
        return Err(
            CompressError::EncodeFailed(
                String::from_str("image dimensions are outside the JPEG encoder's limits"),
            ),
        );
    }
    let rgb = codec::image_to_rgb8(img);
    let quality = options::effective_jpeg_quality(o);
    let encoded = if o.progressive {
        codec::encode_jpeg_progressive(&rgb, img.width, img.height, quality)
    } else {
        codec::encode_jpeg_baseline(&rgb, img.width, img.height, quality)
    };
    match encoded {
        Ok(b) => Ok(CompressOutcome::Encoded(b)),
        Err(msg) => Err(CompressError::EncodeFailed(msg)),
    }
}

/// The slow PNG arm: re-encode the prepared image to baseline PNG bytes,
/// then optimize them.
fn encode_png_image(img: &DecodedImage, o: &CompressOptions) -> (r: Result<
    CompressOutcome,
    CompressError,
>)
    requires
        img.wf(),
    ensures
        png_slow_post(img.state(), *o, r),
{
    let baseline = match codec::reencode_png(img) {
        Ok(b) => b,
        Err(msg) => { return Err(CompressError::EncodeFailed(msg)); },
    };
    let level = options::effective_png_preset(o);
    let optimized = if o.strip_metadata {
        codec::optimize_png_strip(&baseline, level)
    } else {
        codec::optimize_png_keep(&baseline, level)
    };
    match optimized {
        Ok(b) => Ok(CompressOutcome::Encoded(b)),
        Err(msg) => Err(CompressError::EncodeFailed(msg)),
    }
}

/// The WebP arm: flatten to 4-channel color, then the lossless or lossy
/// encoder; dimensions outside libwebp's limits are rejected, and so is a
/// lossy quality above 100, which libwebp would refuse.
fn encode_webp_image(img: &DecodedImage, o: &CompressOptions) -> (r: Result<
    CompressOutcome,
    CompressError,
>)
    requires
        img.wf(),
    ensures
        webp_post(img.state(), *o, r),
{
    if img.width < 1 || img.width > 16383 || img.height < 1 || img.height > 16383 {
        return Err(
            CompressError::EncodeFailed(
                String::from_str("image dimensions are outside the WebP encoder's limits"),
            ),
        );
    }
    let encoded = if o.lossless {
        let rgba = codec::image_to_rgba8(img);
        codec::encode_webp_lossless_raw(&rgba, img.width, img.height)
    } else {
        let quality = options::effective_webp_quality(o);
        if quality > 100 {
            return Err(
                CompressError::EncodeFailed(
                    String::from_str("quality is above the WebP encoder's maximum of 100"),
                ),
            );
        }
        let rgba = codec::image_to_rgba8(img);
        codec::encode_webp_lossy(&rgba, img.width, img.height, quality)
    };
    Ok(CompressOutcome::Encoded(encoded))
}

/// The AVIF arm: flatten to 4-channel color and map the options; the
/// encode itself runs outside the pipeline.
fn plan_avif_image(img: &DecodedImage, o: &CompressOptions) -> (r: Result<
    CompressOutcome,
    CompressError,
>)
    requires
        img.wf(),
    ensures
        avif_post(img.state(), *o, r),
{
    let rgba = codec::image_to_rgba8(img);
    let quality = options::effective_avif_quality(o);
    Ok(
        CompressOutcome::AvifPending(
            AvifRequest {
                rgba,
                width: img.width,
                height: img.height,
                quality,
                alpha_quality: quality,
                speed: options::effective_avif_speed(o),
            },
        ),
    )
}

/// The single-file preconditions, decided from the filesystem facts the
/// caller gathered: the input must be an existing regular file, and an
/// existing output is only replaced when overwriting is allowed.
pub fn check_preconditions(
    input_is_file: bool,
    output_exists: bool,
    overwrite: bool,
    input_path: &str,
    output_path: &str,
) -> (r: Result<(), CompressError>)
    ensures
        r is Ok <==> (input_is_file && (!output_exists || overwrite)),
        !input_is_file ==> (r is Err && (r->Err_0 matches CompressError::InputNotFound(p)
            && p@ == input_path@)),
        input_is_file && output_exists && !overwrite ==> (r is Err
            && (r->Err_0 matches CompressError::OutputExists(p) && p@ == output_path@)),
{
    if !input_is_file {
        Err(CompressError::InputNotFound(String::from_str(input_path)))
    } else if output_exists && !overwrite {
        Err(CompressError::OutputExists(String::from_str(output_path)))
    } else {
        Ok(())
    }
}

/// Decodes the bytes just far enough to report the image's dimensions;
/// `None` when they are not a decodable image.
pub fn probe_dimensions(bytes: &Vec<u8>) -> (r: Option<(u32, u32)>)
    ensures
        r is Some <==> codec::decoded_image(bytes@) is Some,
        r matches Some(d) ==> {
            &&& d.0 == codec::abs_width(codec::decoded_image(bytes@)->Some_0)
            &&& d.1 == codec::abs_height(codec::decoded_image(bytes@)->Some_0)
        },
{
    match codec::decode_image(bytes) {
        Ok(img) => Some((img.width, img.height)),
        Err(_) => None,
    }
}

} // verus!
