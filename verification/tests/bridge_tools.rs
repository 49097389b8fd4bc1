use image_compressor_rs::bridge::{
    image_success_text, plan_compress_directory, plan_compress_image, route_method, route_tool,
    DirToolArgs, ImageToolArgs, MethodRoute, ToolRoute, INTERNAL_ERROR, INVALID_PARAMS,
    METHOD_NOT_FOUND,
};
use image_compressor_rs::resize::ResizeMode;
use image_compressor_rs::stats::CompressionStats;

fn empty_image_args() -> ImageToolArgs {
    ImageToolArgs {
        input_path: None,
        output_path: None,
        quality: None,
        format: None,
        max_width: None,
        max_height: None,
        lossless: None,
    }
}

#[test]
fn method_routing_matches_protocol() {
    assert_eq!(route_method("initialize"), MethodRoute::Initialize);
    assert_eq!(route_method("ping"), MethodRoute::Ping);
    assert_eq!(route_method("shutdown"), MethodRoute::Shutdown);
    assert_eq!(route_method("health/check"), MethodRoute::HealthCheck);
    assert_eq!(route_method("tools/list"), MethodRoute::ToolsList);
    assert_eq!(route_method("tools/call"), MethodRoute::ToolsCall);
    assert_eq!(route_method("no/such"), MethodRoute::Unknown);
    assert_eq!(METHOD_NOT_FOUND, -32601);
    assert_eq!(INVALID_PARAMS, -32602);
    assert_eq!(INTERNAL_ERROR, -32000);
}

#[test]
fn tool_routing_knows_both_tools() {
    assert_eq!(route_tool("compress_image"), ToolRoute::CompressImage);
    assert_eq!(
        route_tool("compress_directory"),
        ToolRoute::CompressDirectory
    );
    assert_eq!(route_tool("mystery"), ToolRoute::Unknown);
}

#[test]
fn image_call_defaults_to_webp_beside_the_input() {
    let args = ImageToolArgs {
        input_path: Some(String::from("a.png")),
        ..empty_image_args()
    };
    let plan = plan_compress_image(&args).unwrap();
    assert_eq!(plan.input_path, "a.png");
    assert_eq!(plan.output_path, "a.webp");
    assert!(plan.options.overwrite);
    assert!(!plan.options.lossless);
    assert!(plan.options.resize.is_none());
    assert!(plan.options.quality.is_none());
}

#[test]
fn image_call_format_overrides_output_extension() {
    let args = ImageToolArgs {
        input_path: Some(String::from("a.png")),
        output_path: Some(String::from("b.png")),
        format: Some(String::from("jpeg")),
        ..empty_image_args()
    };
    let plan = plan_compress_image(&args).unwrap();
    assert_eq!(plan.output_path, "b.jpg");
}

#[test]
fn image_call_bounds_map_to_fit_resize() {
    let args = ImageToolArgs {
        input_path: Some(String::from("a.png")),
        max_width: Some(800),
        ..empty_image_args()
    };
    let plan = plan_compress_image(&args).unwrap();
    let ro = plan.options.resize.unwrap();
    assert_eq!(ro.width, 800);
    assert_eq!(ro.height, u32::MAX);
    assert_eq!(ro.mode, ResizeMode::Fit);
}

#[test]
fn image_call_requires_input_path() {
    let err = plan_compress_image(&empty_image_args()).unwrap_err();
    assert_eq!(err.code, INVALID_PARAMS);
    assert_eq!(err.message, "Missing required parameter: input_path");
}

#[test]
fn directory_call_defaults() {
    let args = DirToolArgs {
        input_dir: Some(String::from("photos")),
        output_dir: None,
        quality: None,
        format: None,
    };
    let plan = plan_compress_directory(&args).unwrap();
    assert_eq!(plan.input_dir, "photos");
    assert_eq!(plan.output_dir, "photos_compressed");
    assert_eq!(plan.format_ext, "webp");
    assert!(plan.options.overwrite);
    assert!(plan.recursive);
}

#[test]
fn directory_call_requires_input_dir() {
    let args = DirToolArgs {
        input_dir: None,
        output_dir: None,
        quality: None,
        format: None,
    };
    let err = plan_compress_directory(&args).unwrap_err();
    assert_eq!(err.code, INVALID_PARAMS);
    assert_eq!(err.message, "Missing required parameter: input_dir");
}

#[test]
fn success_text_reports_savings() {
    let stats = CompressionStats::new(1_000, 500);
    assert_eq!(
        image_success_text("a.png", "a.webp", &stats),
        "Compressed a.png -> a.webp (1 KB -> 500 B, saved 50.0%)"
    );
}
