//! The trusted boundary to the outside codecs.
//!
//! A decoded image is opaque to the verifier; `image_state` names its full
//! decoded contents (color type and samples), the way one names what a
//! collection holds. The outside calls are deterministic functions of that
//! state and of their plain arguments, and each call's result is given a
//! name; the wrappers' contracts tie the executable results to those
//! names, and everything downstream is verified against them.

use vstd::prelude::*;
use crate::options::CompressOptions;
use crate::resize::{ResizeMode, ResizeOptions};

verus! {

#[verifier::external_type_specification]
#[verifier::external_body]
pub struct ExDynamicImage(image::DynamicImage);

/// The decoded contents an `image::DynamicImage` holds.
pub uninterp spec fn image_state(img: image::DynamicImage) -> Seq<u8>;

/// The 8-byte PNG file signature.
pub open spec fn png_signature() -> Seq<u8> {
    seq![0x89u8, 0x50u8, 0x4eu8, 0x47u8, 0x0du8, 0x0au8, 0x1au8, 0x0au8]
}

/// Whether the bytes begin with the PNG signature — exactly when
/// `image::guess_format` recognizes them as PNG.
pub open spec fn png_sniffed(bytes: Seq<u8>) -> bool {
    bytes.len() >= 8 && bytes.subrange(0, 8) == png_signature()
}

/// What `image::load_from_memory` decodes the bytes to: `None` when they
/// are not a decodable image, otherwise the decoded state.
pub uninterp spec fn decoded_image(bytes: Seq<u8>) -> Option<Seq<u8>>;

/// The width `DynamicImage::width` reports for a decoded state.
pub uninterp spec fn abs_width(img: Seq<u8>) -> u32;

/// The height `DynamicImage::height` reports for a decoded state.
pub uninterp spec fn abs_height(img: Seq<u8>) -> u32;

/// The state `DynamicImage::resize` (Lanczos3) produces: the image scaled
/// to the largest size that fits within `w`×`h` preserving aspect ratio.
pub uninterp spec fn fit_resized(img: Seq<u8>, w: u32, h: u32) -> Seq<u8>;

/// The state `DynamicImage::resize_exact` (Lanczos3) produces: the image
/// scaled to exactly `w`×`h`.
pub uninterp spec fn exact_resized(img: Seq<u8>, w: u32, h: u32) -> Seq<u8>;

/// The raw 3-byte-per-pixel samples of `DynamicImage::to_rgb8`.
pub uninterp spec fn rgb8_samples(img: Seq<u8>) -> Seq<u8>;

/// The raw 4-byte-per-pixel samples of `DynamicImage::to_rgba8`.
pub uninterp spec fn rgba8_samples(img: Seq<u8>) -> Seq<u8>;

/// What `DynamicImage::write_to` emits for a state when asked for PNG:
/// `None` when the encoder rejects the image, otherwise the baseline PNG
/// bytes.
pub uninterp spec fn png_reencoded(img: Seq<u8>) -> Option<Seq<u8>>;

/// What `oxipng::optimize_from_memory` returns for PNG bytes under the
/// preset for `level` with or without safe-chunk stripping: `None` when
/// the bytes are rejected, otherwise the optimized bytes.
pub uninterp spec fn png_optimized(png: Seq<u8>, level: u8, strip: bool) -> Option<Seq<u8>>;

/// The bytes mozjpeg emits for RGB samples at the given quality, baseline
/// scan order.
pub uninterp spec fn jpeg_baseline(rgb: Seq<u8>, w: u32, h: u32, quality: u8) -> Seq<u8>;

/// The bytes mozjpeg emits with progressive scan optimization.
pub uninterp spec fn jpeg_progressive(rgb: Seq<u8>, w: u32, h: u32, quality: u8) -> Seq<u8>;

/// The bytes libwebp emits on the lossy path at the given quality.
pub uninterp spec fn webp_lossy(rgba: Seq<u8>, w: u32, h: u32, quality: u8) -> Seq<u8>;

/// The bytes libwebp emits on the lossless path.
pub uninterp spec fn webp_lossless(rgba: Seq<u8>, w: u32, h: u32) -> Seq<u8>;

/// A decoded image: the outside handle and its dimensions. Every
/// constructor in this module ties the dimension fields to the handle's
/// decoded state.
pub struct DecodedImage {
    pub(crate) inner: image::DynamicImage,
    pub(crate) width: u32,
    pub(crate) height: u32,
}

impl DecodedImage {
    /// The decoded contents this image holds.
    pub(crate) open spec fn state(self) -> Seq<u8> {
        image_state(self.inner)
    }

    /// The dimension fields agree with what the handle reports.
    pub(crate) open spec fn wf(self) -> bool {
        self.width == abs_width(self.state()) && self.height == abs_height(self.state())
    }
}

/// Relies on `image::guess_format`: a pure prefix match over the known
/// magic numbers, which reports PNG exactly when the bytes begin with the
/// 8-byte PNG signature (no other magic number is a prefix of it).
#[verifier::external_body]
pub(crate) fn sniff_is_png(bytes: &Vec<u8>) -> (r: bool)
    ensures
        r == png_sniffed(bytes@),
{
    image::guess_format(bytes).map(|f| f == image::ImageFormat::Png).unwrap_or(false)
}

/// Relies on `image::load_from_memory`: format auto-detection and decode,
/// a deterministic function of the bytes. The reported dimensions are the
/// decoded image's own.
#[verifier::external_body]
pub(crate) fn decode_image(bytes: &Vec<u8>) -> (r: Result<DecodedImage, String>)
    ensures
        r is Ok <==> decoded_image(bytes@) is Some,
        r matches Ok(img) ==> {
            &&& image_state(img.inner) == decoded_image(bytes@)->Some_0
            &&& img.width == abs_width(image_state(img.inner))
            &&& img.height == abs_height(image_state(img.inner))
        },
{
    match image::load_from_memory(bytes) {
        Ok(inner) => {
            let (width, height) = (inner.width(), inner.height());
            Ok(DecodedImage { inner, width, height })
        },
        Err(e) => Err(format!("{e}")),
    }
}

/// Relies on `DynamicImage::resize` with the Lanczos3 filter: a
/// deterministic function of the image state and the bounds. For positive
/// bounds the result fits within them (the scale factor is the smaller of
/// the two per-axis ratios, and each rounded dimension stays at or below
/// its bound); the exact dimensions are the collaborator's own rounding,
/// so beyond the bounds only the resulting image's report of them is
/// stated.
#[verifier::external_body]
pub(crate) fn resize_fit(img: &DecodedImage, w: u32, h: u32) -> (r: DecodedImage)
    requires
        img.wf(),
    ensures
        image_state(r.inner) == fit_resized(image_state(img.inner), w, h),
        r.width == abs_width(image_state(r.inner)),
        r.height == abs_height(image_state(r.inner)),
        w >= 1 && h >= 1 ==> r.width <= w && r.height <= h,
{
    let resized = img.inner.resize(w, h, image::imageops::FilterType::Lanczos3);
    let (width, height) = (resized.width(), resized.height());
    DecodedImage { inner: resized, width, height }
}

/// Relies on `DynamicImage::resize_exact` with the Lanczos3 filter: the
/// result has exactly the requested dimensions.
#[verifier::external_body]
pub(crate) fn resize_exact_to(img: &DecodedImage, w: u32, h: u32) -> (r: DecodedImage)
    requires
        img.wf(),
    ensures
        image_state(r.inner) == exact_resized(image_state(img.inner), w, h),
        r.width == w,
        r.height == h,
        r.width == abs_width(image_state(r.inner)),
        r.height == abs_height(image_state(r.inner)),
{
    let resized = img.inner.resize_exact(w, h, image::imageops::FilterType::Lanczos3);
    let (width, height) = (resized.width(), resized.height());
    DecodedImage { inner: resized, width, height }
}

/// Relies on `DynamicImage::to_rgb8`: a buffer of exactly width × height
/// 3-byte pixels.
#[verifier::external_body]
pub(crate) fn image_to_rgb8(img: &DecodedImage) -> (r: Vec<u8>)
    requires
        img.wf(),
    ensures
        r@ == rgb8_samples(image_state(img.inner)),
        r@.len() == 3 * (img.width as int) * (img.height as int),
{
    img.inner.to_rgb8().into_raw()
}

/// Relies on `DynamicImage::to_rgba8`: a buffer of exactly width × height
/// 4-byte pixels.
#[verifier::external_body]
pub(crate) fn image_to_rgba8(img: &DecodedImage) -> (r: Vec<u8>)
    requires
        img.wf(),
    ensures
        r@ == rgba8_samples(image_state(img.inner)),
        r@.len() == 4 * (img.width as int) * (img.height as int),
{
    img.inner.to_rgba8().into_raw()
}

/// Relies on `DynamicImage::write_to` with the PNG format: a deterministic
/// baseline PNG encoding of the image state, failing exactly when the
/// encoder rejects the image (deterministic in the state as well).
#[verifier::external_body]
pub(crate) fn reencode_png(img: &DecodedImage) -> (r: Result<Vec<u8>, String>)
    ensures
        r is Ok <==> png_reencoded(image_state(img.inner)) is Some,
        r matches Ok(b) ==> b@ == png_reencoded(image_state(img.inner))->Some_0,
{
    let mut buf = Vec::new();
    match img.inner.write_to(&mut std::io::Cursor::new(&mut buf), image::ImageFormat::Png) {
        Ok(()) => Ok(buf),
        Err(e) => Err(format!("{e}")),
    }
}

/// Relies on `oxipng::optimize_from_memory` with `Options::from_preset`
/// and safe-chunk stripping. The presets leave `force` off, so oxipng
/// falls back to the original bytes rather than ever growing the file.
#[verifier::external_body]
pub(crate) fn optimize_png_strip(png: &Vec<u8>, level: u8) -> (r: Result<Vec<u8>, String>)
    ensures
        r is Ok <==> png_optimized(png@, level, true) is Some,
        r matches Ok(b) ==> b@ == png_optimized(png@, level, true)->Some_0,
        r matches Ok(b) ==> b@.len() <= png@.len(),
{
    let mut opts = oxipng::Options::from_preset(level);
    opts.strip = oxipng::StripChunks::Safe;
    oxipng::optimize_from_memory(png.as_slice(), &opts).map_err(|e| format!("{e}"))
}

/// Relies on `oxipng::optimize_from_memory` with `Options::from_preset`,
/// keeping metadata chunks. As above, the result never exceeds the input.
#[verifier::external_body]
pub(crate) fn optimize_png_keep(png: &Vec<u8>, level: u8) -> (r: Result<Vec<u8>, String>)
    ensures
        r is Ok <==> png_optimized(png@, level, false) is Some,
        r matches Ok(b) ==> b@ == png_optimized(png@, level, false)->Some_0,
        r matches Ok(b) ==> b@.len() <= png@.len(),
{
    let opts = oxipng::Options::from_preset(level);
    oxipng::optimize_from_memory(png.as_slice(), &opts).map_err(|e| format!("{e}"))
}

/// Relies on mozjpeg's `Compress` in `JCS_RGB` with baseline scan order:
/// deterministic in the samples, dimensions and quality. libjpeg's
/// dimension limit is 65500 per axis and every error beyond it is raised
/// through the unwinding error manager, so larger images are excluded
/// here and rejected by the caller. Within these bounds the encode cannot
/// fail: the `Vec` destination accepts every byte, libjpeg clamps the
/// quality itself, and all other failure paths are unwinds libjpeg never
/// takes on these fixed settings. A successful stream is never empty: the
/// start and end markers are always written.
#[verifier::external_body]
pub(crate) fn encode_jpeg_baseline(pixels: &Vec<u8>, width: u32, height: u32, quality: u8) -> (r:
    Result<Vec<u8>, String>)
    requires
        pixels@.len() == 3 * (width as int) * (height as int),
        1 <= width <= 65500,
        1 <= height <= 65500,
    ensures
        r is Ok,
        r matches Ok(b) ==> b@ == jpeg_baseline(pixels@, width, height, quality) && b@.len() > 0,
{
    let mut comp = mozjpeg::Compress::new(mozjpeg::ColorSpace::JCS_RGB);
    comp.set_size(width as usize, height as usize);
    comp.set_quality(quality.into());
    let mut started = comp.start_compress(Vec::new()).map_err(|e| format!("{e}"))?;
    started.write_scanlines(pixels.as_slice()).map_err(|e| format!("{e}"))?;
    started.finish().map_err(|e| format!("{e}"))
}

/// Relies on mozjpeg's `Compress` with `ScanMode::AllComponentsTogether`:
/// the scan-optimized counterpart of `encode_jpeg_baseline`, under the
/// same 65500-per-axis libjpeg limit and with the same cannot-fail
/// argument within it.
#[verifier::external_body]
pub(crate) fn encode_jpeg_progressive(pixels: &Vec<u8>, width: u32, height: u32, quality: u8) -> (r:
    Result<Vec<u8>, String>)
    requires
        pixels@.len() == 3 * (width as int) * (height as int),
        1 <= width <= 65500,
        1 <= height <= 65500,
    ensures
        r is Ok,
        r matches Ok(b) ==> b@ == jpeg_progressive(pixels@, width, height, quality) && b@.len()
            > 0,
{
    let mut comp = mozjpeg::Compress::new(mozjpeg::ColorSpace::JCS_RGB);
    comp.set_size(width as usize, height as usize);
    comp.set_quality(quality.into());
    comp.set_scan_optimization_mode(mozjpeg::ScanMode::AllComponentsTogether);
    let mut started = comp.start_compress(Vec::new()).map_err(|e| format!("{e}"))?;
    started.write_scanlines(pixels.as_slice()).map_err(|e| format!("{e}"))?;
    started.finish().map_err(|e| format!("{e}"))
}

/// Relies on `webp::Encoder::from_rgba` and `encode`: deterministic lossy
/// encoding. `from_rgba` panics on a short buffer, and `encode` unwraps
/// on anything libwebp's configuration check rejects — dimensions of zero
/// or beyond 16383, and a quality above 100 — so those inputs are
/// excluded here and rejected by the caller.
#[verifier::external_body]
pub(crate) fn encode_webp_lossy(rgba: &Vec<u8>, width: u32, height: u32, quality: u8) -> (r: Vec<
    u8,
>)
    requires
        rgba@.len() == 4 * (width as int) * (height as int),
        1 <= width <= 16383,
        1 <= height <= 16383,
        quality <= 100,
    ensures
        r@ == webp_lossy(rgba@, width, height, quality),
{
    let encoder = webp::Encoder::from_rgba(rgba.as_slice(), width, height);
    encoder.encode(quality.into()).to_vec()
}

/// Relies on `webp::Encoder::from_rgba` and `encode_lossless`, under the
/// same dimension limits.
#[verifier::external_body]
pub(crate) fn encode_webp_lossless_raw(rgba: &Vec<u8>, width: u32, height: u32) -> (r: Vec<u8>)
    requires
        rgba@.len() == 4 * (width as int) * (height as int),
        1 <= width <= 16383,
        1 <= height <= 16383,
    ensures
        r@ == webp_lossless(rgba@, width, height),
{
    let encoder = webp::Encoder::from_rgba(rgba.as_slice(), width, height);
    encoder.encode_lossless().to_vec()
}

/// The decoded state after the optional resize step: untouched without a
/// resize request, otherwise resized in the requested mode.
pub open spec fn prepared_state(decoded: Seq<u8>, resize: Option<ResizeOptions>) -> Seq<u8> {
    match resize {
        None => decoded,
        Some(ro) => match ro.mode {
            ResizeMode::Fit => fit_resized(decoded, ro.width, ro.height),
            ResizeMode::Exact => exact_resized(decoded, ro.width, ro.height),
        },
    }
}

/// Decode-and-prepare: decodes the bytes (the decoder auto-detects the
/// source encoding) and applies the resize policy. Succeeds exactly when
/// the bytes decode; an Exact resize yields exactly the requested
/// dimensions, and a Fit resize with positive bounds stays within them.
pub(crate) fn decode_and_prepare(bytes: &Vec<u8>, options: &CompressOptions) -> (r: Result<
    DecodedImage,
    String,
>)
    ensures
        r is Ok <==> decoded_image(bytes@) is Some,
        r matches Ok(img) ==> {
            &&& img.state() == prepared_state(decoded_image(bytes@)->Some_0, options.resize)
            &&& img.wf()
            &&& (options.resize matches Some(ro) ==> {
                &&& (ro.mode is Exact ==> img.width == ro.width && img.height == ro.height)
                &&& ((ro.mode is Fit && ro.width >= 1 && ro.height >= 1) ==> img.width
                    <= ro.width && img.height <= ro.height)
            })
        },
{
    let img = decode_image(bytes)?;
    match options.resize {
        None => Ok(img),
        Some(ro) => match ro.mode {
            ResizeMode::Fit => Ok(resize_fit(&img, ro.width, ro.height)),
            ResizeMode::Exact => Ok(resize_exact_to(&img, ro.width, ro.height)),
        },
    }
}

} // verus!
