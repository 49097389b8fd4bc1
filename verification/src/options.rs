//! The configuration bag for one pipeline run, and the per-format option
//! mapping (quality defaults, PNG preset, AVIF speed).

use vstd::prelude::*;
use crate::errors::CompressError;
use crate::resize::{ResizeMode, ResizeOptions, ResizeRequest};

verus! {

/// Immutable configuration for one pipeline run.
#[derive(Debug, Clone, Copy)]
pub struct CompressOptions {
    /// Replace an existing output file instead of failing.
    pub overwrite: bool,
    /// Encoder quality 1–100; each format has its own default when absent.
    pub quality: Option<u8>,
    /// Lossless encoding (WebP and AVIF only).
    pub lossless: bool,
    /// Progressive scan optimization (JPEG only).
    pub progressive: bool,
    /// Strip safe metadata chunks (PNG optimizer).
    pub strip_metadata: bool,
    /// Optional resize applied after decode.
    pub resize: Option<ResizeOptions>,
    /// PNG optimization preset 1–6, default 2.
    pub png_level: Option<u8>,
    /// AVIF encode speed 1–10, default 4.
    pub avif_speed: Option<u8>,
}

impl Default for CompressOptions {
    /// The default configuration: non-destructive (no overwrite), default
    /// quality, lossy, baseline, metadata stripped, no resize.
    fn default() -> (r: Self)
        ensures
            !r.overwrite,
            r.quality is None,
            !r.lossless,
            !r.progressive,
            r.strip_metadata,
            r.resize is None,
            r.png_level is None,
            r.avif_speed is None,
    {
        CompressOptions {
            overwrite: false,
            quality: None,
            lossless: false,
            progressive: false,
            strip_metadata: true,
            resize: None,
            png_level: None,
            avif_speed: None,
        }
    }
}

/// JPEG quality: the explicit setting, defaulting to 85.
pub open spec fn jpeg_quality(o: CompressOptions) -> u8 {
    if o.quality is Some { o.quality->0 } else { 85 }
}

/// WebP lossy quality: the explicit setting, defaulting to 85.
pub open spec fn webp_quality(o: CompressOptions) -> u8 {
    if o.quality is Some { o.quality->0 } else { 85 }
}

/// AVIF quality: forced to 100 when lossless, else defaulting to 80.
pub open spec fn avif_quality(o: CompressOptions) -> u8 {
    if o.lossless { 100 } else if o.quality is Some { o.quality->0 } else { 80 }
}

/// PNG optimizer preset: the explicit setting, defaulting to 2.
pub open spec fn png_preset(o: CompressOptions) -> u8 {
    if o.png_level is Some { o.png_level->0 } else { 2 }
}

/// AVIF encode speed: the explicit setting, defaulting to 4.
pub open spec fn avif_speed(o: CompressOptions) -> u8 {
    if o.avif_speed is Some { o.avif_speed->0 } else { 4 }
}

pub fn effective_jpeg_quality(o: &CompressOptions) -> (r: u8)
    ensures
        r == jpeg_quality(*o),
{
    match o.quality {
        Some(q) => q,
        None => 85,
    }
}

pub fn effective_webp_quality(o: &CompressOptions) -> (r: u8)
    ensures
        r == webp_quality(*o),
{
    match o.quality {
        Some(q) => q,
        None => 85,
    }
}

pub fn effective_avif_quality(o: &CompressOptions) -> (r: u8)
    ensures
        r == avif_quality(*o),
{
    if o.lossless {
        100
    } else {
        match o.quality {
            Some(q) => q,
            None => 80,
        }
    }
}

pub fn effective_png_preset(o: &CompressOptions) -> (r: u8)
    ensures
        r == png_preset(*o),
{
    match o.png_level {
        Some(l) => l,
        None => 2,
    }
}

pub fn effective_avif_speed(o: &CompressOptions) -> (r: u8)
    ensures
        r == avif_speed(*o),
{
    match o.avif_speed {
        Some(s) => s,
        None => 4,
    }
}

/// Assembles the full configuration from command-line style inputs.
/// `keep_metadata` is inverted into `strip_metadata`; a resize request is
/// validated through `ResizeOptions::new`, so a zero dimension fails.
pub fn build_compress_options(
    overwrite: bool,
    quality: Option<u8>,
    lossless: bool,
    progressive: bool,
    keep_metadata: bool,
    resize: Option<ResizeRequest>,
    resize_mode: ResizeMode,
    png_level: Option<u8>,
    avif_speed: Option<u8>,
) -> (r: Result<CompressOptions, CompressError>)
    ensures
        (r is Err <==> (resize matches Some(rq) && (rq.width == 0 || rq.height == 0))),
        r is Err ==> r->Err_0 is InvalidResize,
        r matches Ok(o) ==> {
            &&& o.overwrite == overwrite
            &&& o.quality == quality
            &&& o.lossless == lossless
            &&& o.progressive == progressive
            &&& o.strip_metadata == !keep_metadata
            &&& (resize is None ==> o.resize is None)
            &&& (resize matches Some(rq) ==> o.resize == Some(
                ResizeOptions { width: rq.width, height: rq.height, mode: resize_mode },
            ))
            &&& o.png_level == png_level
            &&& o.avif_speed == avif_speed
        },
{
    let resize_opts = match resize {
        None => None,
        Some(rq) => match ResizeOptions::new(rq.width, rq.height, resize_mode) {
            Ok(ro) => Some(ro),
            Err(e) => { return Err(e); },
        },
    };
    Ok(CompressOptions {
        overwrite,
        quality,
        lossless,
        progressive,
        strip_metadata: !keep_metadata,
        resize: resize_opts,
        png_level,
        avif_speed,
    })
}

} // verus!
