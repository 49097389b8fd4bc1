//! Tool Bridge core: request routing and the translation of tool-call
//! arguments into pipeline inputs. The line transport and JSON framing are
//! the caller's; every decision — which method, which tool, which paths
//! and options, which error code — is made and verified here.

use vstd::prelude::*;
use vstd::string::*;
use crate::options::CompressOptions;
use crate::paths;
use crate::resize::{ResizeMode, ResizeOptions};
use crate::stats::{savings_permille, CompressionStats};
use crate::batch::BatchReport;
use crate::text;

verus! {

/// Error code for an unknown method or tool.
pub const METHOD_NOT_FOUND: i64 = -32601;

/// Error code for invalid or missing tool parameters.
pub const INVALID_PARAMS: i64 = -32602;

/// Error code for a pipeline failure.
pub const INTERNAL_ERROR: i64 = -32000;

/// A structured protocol error: code and message.
#[derive(Debug, Clone)]
pub struct RpcError {
    pub code: i64,
    pub message: String,
}

/// The methods the bridge serves.
#[derive(Debug, Clone, Copy, PartialEq, Eq, Structural)]
pub enum MethodRoute {
    Initialize,
    Ping,
    Shutdown,
    HealthCheck,
    ToolsList,
    ToolsCall,
    Unknown,
}

/// Routes a request's method name.
pub fn route_method(method: &str) -> (r: MethodRoute)
    ensures
        r == MethodRoute::Initialize <==> method@ == "initialize"@,
        r == MethodRoute::Ping <==> method@ == "ping"@,
        r == MethodRoute::Shutdown <==> method@ == "shutdown"@,
        r == MethodRoute::HealthCheck <==> method@ == "health/check"@,
        r == MethodRoute::ToolsList <==> method@ == "tools/list"@,
        r == MethodRoute::ToolsCall <==> method@ == "tools/call"@,
{
    proof {
        reveal_strlit("initialize");
        reveal_strlit("ping");
        reveal_strlit("shutdown");
        reveal_strlit("health/check");
        reveal_strlit("tools/list");
        reveal_strlit("tools/call");
        assert("initialize"@.len() == 10);
        assert("ping"@.len() == 4);
        assert("shutdown"@.len() == 8);
        assert("health/check"@.len() == 12);
        assert("tools/list"@.len() == 10);
        assert("tools/call"@.len() == 10);
        assert("initialize"@[0] == 'i');
        assert("tools/list"@[0] == 't');
        assert("tools/call"@[0] == 't');
        assert("tools/list"@[6] == 'l');
        assert("tools/call"@[6] == 'c');
    }
    if text::str_eq(method, "initialize") {
        MethodRoute::Initialize
    } else if text::str_eq(method, "ping") {
        MethodRoute::Ping
    } else if text::str_eq(method, "shutdown") {
        MethodRoute::Shutdown
    } else if text::str_eq(method, "health/check") {
        MethodRoute::HealthCheck
    } else if text::str_eq(method, "tools/list") {
        MethodRoute::ToolsList
    } else if text::str_eq(method, "tools/call") {
        MethodRoute::ToolsCall
    } else {
        MethodRoute::Unknown
    }
}

/// The two tools the bridge exposes.
#[derive(Debug, Clone, Copy, PartialEq, Eq, Structural)]
pub enum ToolRoute {
    CompressImage,
    CompressDirectory,
    Unknown,
}

/// Routes a tool-call's tool name.
pub fn route_tool(name: &str) -> (r: ToolRoute)
    ensures
        r == ToolRoute::CompressImage <==> name@ == "compress_image"@,
        r == ToolRoute::CompressDirectory <==> name@ == "compress_directory"@,
{
    proof {
        reveal_strlit("compress_image");
        reveal_strlit("compress_directory");
        assert("compress_image"@.len() == 14);
        assert("compress_directory"@.len() == 18);
    }
    if text::str_eq(name, "compress_image") {
        ToolRoute::CompressImage
    } else if text::str_eq(name, "compress_directory") {
        ToolRoute::CompressDirectory
    } else {
        ToolRoute::Unknown
    }
}

/// The plain arguments of a `compress_image` tool call.
pub struct ImageToolArgs {
    pub input_path: Option<String>,
    pub output_path: Option<String>,
    pub quality: Option<u8>,
    pub format: Option<String>,
    pub max_width: Option<u32>,
    pub max_height: Option<u32>,
    pub lossless: Option<bool>,
}

/// The plain arguments of a `compress_directory` tool call.
pub struct DirToolArgs {
    pub input_dir: Option<String>,
    pub output_dir: Option<String>,
    pub quality: Option<u8>,
    pub format: Option<String>,
}

/// A resolved single-file call: where to read, where to write, and how.
#[derive(Debug)]
pub struct ImageCallPlan {
    pub input_path: String,
    pub output_path: String,
    pub options: CompressOptions,
}

/// A resolved batch call.
#[derive(Debug)]
pub struct DirCallPlan {
    pub input_dir: String,
    pub output_dir: String,
    pub format_ext: String,
    pub options: CompressOptions,
    pub recursive: bool,
}

/// The `jpeg` token is spelled `jpg` on disk; other tokens pass through.
pub open spec fn mapped_format_ext(f: Seq<char>) -> Seq<char> {
    if f == "jpeg"@ {
        "jpg"@
    } else {
        f
    }
}

/// The output path of a `compress_image` call: the given output or the
/// input with the target extension; an explicitly given format always
/// overrides the output's extension.
pub open spec fn image_output_spec(
    input: Seq<char>,
    output: Option<Seq<char>>,
    format: Option<Seq<char>>,
) -> Seq<char> {
    let base = match output {
        Some(o) => o,
        None => {
            let ext = match format {
                Some(f) => mapped_format_ext(f),
                None => "webp"@,
            };
            paths::with_extension_spec(input, ext)
        },
    };
    match format {
        Some(f) => paths::with_extension_spec(base, mapped_format_ext(f)),
        None => base,
    }
}

/// The Fit-mode resize a `compress_image` call maps its bounds to: an
/// absent bound is treated as unbounded via the largest representable
/// dimension; a zero bound yields no resize at all.
pub open spec fn bounds_resize_spec(mw: Option<u32>, mh: Option<u32>) -> Option<ResizeOptions> {
    match (mw, mh) {
        (Some(w), Some(h)) => if w > 0 && h > 0 {
            Some(ResizeOptions { width: w, height: h, mode: ResizeMode::Fit })
        } else {
            None
        },
        (Some(w), None) => if w > 0 {
            Some(ResizeOptions { width: w, height: u32::MAX, mode: ResizeMode::Fit })
        } else {
            None
        },
        (None, Some(h)) => if h > 0 {
            Some(ResizeOptions { width: u32::MAX, height: h, mode: ResizeMode::Fit })
        } else {
            None
        },
        (None, None) => None,
    }
}

/// Resolves a `compress_image` tool call. Fails only when the required
/// `input_path` is missing; the plan always allows overwriting, as the
/// tool's contract promises in-place convenience.
pub fn plan_compress_image(args: &ImageToolArgs) -> (r: Result<ImageCallPlan, RpcError>)
    ensures
        r is Err <==> args.input_path is None,
        r matches Err(e) ==> e.code == INVALID_PARAMS && e.message@
            == "Missing required parameter: input_path"@,
        r matches Ok(plan) ==> {
            &&& plan.input_path@ == args.input_path->0@
            &&& plan.output_path@ == image_output_spec(
                args.input_path->0@,
                match args.output_path {
                    Some(ref o) => Some(o@),
                    None => None,
                },
                match args.format {
                    Some(ref f) => Some(f@),
                    None => None,
                },
            )
            &&& plan.options.overwrite
            &&& plan.options.quality == args.quality
            &&& plan.options.lossless == (args.lossless matches Some(true))
            &&& !plan.options.progressive
            &&& plan.options.strip_metadata
            &&& plan.options.resize == bounds_resize_spec(args.max_width, args.max_height)
            &&& plan.options.png_level is None
            &&& plan.options.avif_speed is None
        },
{
    let input_path = match &args.input_path {
        Some(p) => p,
        None => {
            return Err(
                RpcError {
                    code: INVALID_PARAMS,
                    message: String::from_str("Missing required parameter: input_path"),
                },
            );
        },
    };
    let format_ext: Option<&str> = match &args.format {
        Some(f) => Some(map_jpeg_token(f.as_str())),
        None => None,
    };
    let base = match &args.output_path {
        Some(o) => clone_string(o),
        None => {
            let ext = match format_ext {
                Some(e) => e,
                None => "webp",
            };
            paths::replace_extension(input_path.as_str(), ext)
        },
    };
    let final_output = match format_ext {
        Some(e) => paths::replace_extension(base.as_str(), e),
        None => base,
    };
    let resize = plan_bounds_resize(args.max_width, args.max_height);
    let lossless = match args.lossless {
        Some(b) => b,
        None => false,
    };
    Ok(
        ImageCallPlan {
            input_path: clone_string(input_path),
            output_path: final_output,
            options: CompressOptions {
                overwrite: true,
                quality: args.quality,
                lossless,
                progressive: false,
                strip_metadata: true,
                resize,
                png_level: None,
                avif_speed: None,
            },
        },
    )
}

/// Resolves a `compress_directory` tool call. Fails only when the
/// required `input_dir` is missing; the format defaults to `webp`, the
/// output directory to the input with a `_compressed` suffix, and the
/// walk is recursive.
pub fn plan_compress_directory(args: &DirToolArgs) -> (r: Result<DirCallPlan, RpcError>)
    ensures
        r is Err <==> args.input_dir is None,
        r matches Err(e) ==> e.code == INVALID_PARAMS && e.message@
            == "Missing required parameter: input_dir"@,
        r matches Ok(plan) ==> {
            &&& plan.input_dir@ == args.input_dir->0@
            &&& plan.format_ext@ == mapped_format_ext(
                match args.format {
                    Some(ref f) => f@,
                    None => "webp"@,
                },
            )
            &&& plan.output_dir@ == (match args.output_dir {
                Some(ref o) => o@,
                None => args.input_dir->0@ + "_compressed"@,
            })
            &&& plan.options.overwrite
            &&& plan.options.quality == args.quality
            &&& !plan.options.lossless
            &&& !plan.options.progressive
            &&& plan.options.strip_metadata
            &&& plan.options.resize is None
            &&& plan.options.png_level is None
            &&& plan.options.avif_speed is None
            &&& plan.recursive
        },
{
    proof {
        reveal_strlit("webp");
        reveal_strlit("jpeg");
        assert("webp"@.len() == 4);
        assert("jpeg"@.len() == 4);
        assert("webp"@[0] == 'w');
        assert("jpeg"@[0] == 'j');
    }
    let input_dir = match &args.input_dir {
        Some(p) => p,
        None => {
            return Err(
                RpcError {
                    code: INVALID_PARAMS,
                    message: String::from_str("Missing required parameter: input_dir"),
                },
            );
        },
    };
    let format_ext = match &args.format {
        Some(f) => String::from_str(map_jpeg_token(f.as_str())),
        None => String::from_str("webp"),
    };
    let output_dir = match &args.output_dir {
        Some(o) => clone_string(o),
        None => {
            let mut s = clone_string(input_dir);
            s.append("_compressed");
            s
        },
    };
    Ok(
        DirCallPlan {
            input_dir: clone_string(input_dir),
            output_dir,
            format_ext,
            options: CompressOptions {
                overwrite: true,
                quality: args.quality,
                lossless: false,
                progressive: false,
                strip_metadata: true,
                resize: None,
                png_level: None,
                avif_speed: None,
            },
            recursive: true,
        },
    )
}

/// `jpeg` becomes `jpg`; anything else is returned as given.
fn map_jpeg_token<'a>(f: &'a str) -> (r: &'a str)
    ensures
        r@ == mapped_format_ext(f@),
{
    if text::str_eq(f, "jpeg") {
        "jpg"
    } else {
        f
    }
}

fn clone_string(s: &String) -> (r: String)
    ensures
        r@ == s@,
{
    String::from_str(s.as_str())
}

fn plan_bounds_resize(mw: Option<u32>, mh: Option<u32>) -> (r: Option<ResizeOptions>)
    ensures
        r == bounds_resize_spec(mw, mh),
{
    match (mw, mh) {
        (Some(w), Some(h)) => match ResizeOptions::new(w, h, ResizeMode::Fit) {
            Ok(ro) => Some(ro),
            Err(_) => None,
        },
        (Some(w), None) => match ResizeOptions::new(w, u32::MAX, ResizeMode::Fit) {
            Ok(ro) => Some(ro),
            Err(_) => None,
        },
        (None, Some(h)) => match ResizeOptions::new(u32::MAX, h, ResizeMode::Fit) {
            Ok(ro) => Some(ro),
            Err(_) => None,
        },
        (None, None) => None,
    }
}

/// What the success text of a `compress_image` call says.
pub open spec fn image_success_spec(input: Seq<char>, output: Seq<char>, o: int, c: int) -> Seq<
    char,
> {
    "Compressed "@ + input + " -> "@ + output + " ("@ + crate::stats::format_size_spec(o)
        + " -> "@ + crate::stats::format_size_spec(c) + ", saved "@
        + crate::stats::permille_chars(savings_permille(o, c)) + "%)"@
}

/// The human-readable savings summary of a successful single-file call.
pub fn image_success_text(input: &str, output: &str, stats: &CompressionStats) -> (r: String)
    ensures
        r@ == image_success_spec(
            input@,
            output@,
            stats.original_bytes as int,
            stats.compressed_bytes as int,
        ),
{
    let fresh = CompressionStats::new(stats.original_bytes, stats.compressed_bytes);
    proof {
        crate::stats::lemma_savings_bounds(
            stats.original_bytes as int,
            stats.compressed_bytes as int,
        );
    }
    let mut s = String::from_str("Compressed ");
    s.append(input);
    s.append(" -> ");
    s.append(output);
    s.append(" (");
    s.append(crate::stats::format_size(stats.original_bytes).as_str());
    s.append(" -> ");
    s.append(crate::stats::format_size(stats.compressed_bytes).as_str());
    s.append(", saved ");
    s.append(crate::stats::permille_text(fresh.savings_permille).as_str());
    s.append("%)");
    proof {
        assert(s@ =~= image_success_spec(
            input@,
            output@,
            stats.original_bytes as int,
            stats.compressed_bytes as int,
        ));
    }
    s
}

/// What the success text of a `compress_directory` call says.
pub open spec fn directory_success_spec(r: BatchReport) -> Seq<char> {
    "Batch compression complete: "@ + text::dec_rep(r.compressed as nat) + " compressed, "@
        + text::dec_rep(r.skipped as nat) + " skipped, "@ + text::dec_rep(r.failed as nat)
        + " failed ("@ + crate::stats::format_size_spec(r.total_original_bytes as int) + " -> "@
        + crate::stats::format_size_spec(r.total_compressed_bytes as int) + ")"@
}

/// The human-readable summary of a successful batch call.
pub fn directory_success_text(report: &BatchReport) -> (r: String)
    ensures
        r@ == directory_success_spec(*report),
{
    let mut s = String::from_str("Batch compression complete: ");
    let mut d1: Vec<char> = Vec::new();
    text::push_dec(report.compressed as u64, &mut d1);
    s.append(text::chars_to_string(&d1).as_str());
    s.append(" compressed, ");
    let mut d2: Vec<char> = Vec::new();
    text::push_dec(report.skipped as u64, &mut d2);
    s.append(text::chars_to_string(&d2).as_str());
    s.append(" skipped, ");
    let mut d3: Vec<char> = Vec::new();
    text::push_dec(report.failed as u64, &mut d3);
    s.append(text::chars_to_string(&d3).as_str());
    s.append(" failed (");
    s.append(crate::stats::format_size(report.total_original_bytes).as_str());
    s.append(" -> ");
    s.append(crate::stats::format_size(report.total_compressed_bytes).as_str());
    s.append(")");
    proof {
        assert(s@ =~= directory_success_spec(*report));
    }
    s
}

/// The error message for an unknown method.
pub fn unknown_method_message(method: &str) -> (r: String)
    ensures
        r@ == "Method not found: "@ + method@,
{
    let mut s = String::from_str("Method not found: ");
    s.append(method);
    s
}

/// The error message for an unknown tool.
pub fn unknown_tool_message(name: &str) -> (r: String)
    ensures
        r@ == "Unknown tool: "@ + name@,
{
    let mut s = String::from_str("Unknown tool: ");
    s.append(name);
    s
}

} // verus!
