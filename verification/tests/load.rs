use curcat::config::ImageLimits;
use curcat::decode::{
    decode_image_from_clipboard_rgba, decode_raster_bytes, is_svg_extension, plan_image_load,
    should_try_svg, ImageLoadOutcome, LoadError, LoadPlan,
};
use curcat::limits::{ImageLoadPolicy, LimitError};

fn limits(image_dim: u32, total_pixels: u64, alloc_bytes: u64) -> ImageLimits {
    ImageLimits { image_dim, total_pixels, alloc_bytes }
}

fn png_bytes(width: u32, height: u32) -> (Vec<u8>, Vec<u8>) {
    let img = image::RgbaImage::from_fn(width, height, |x, y| {
        image::Rgba([(x % 256) as u8, (y % 256) as u8, 7, 255])
    });
    let raw = img.as_raw().clone();
    let mut bytes = Vec::new();
    image::DynamicImage::ImageRgba8(img)
        .write_to(&mut std::io::Cursor::new(&mut bytes), image::ImageFormat::Png)
        .unwrap();
    (bytes, raw)
}

#[test]
fn returns_prompt_for_config_limit_exceed() {
    let cfg = limits(1_000, 1_000_000, 50_000_000);
    let plan = plan_image_load(4_000, 2_000, &cfg, ImageLoadPolicy::AskUser).unwrap();
    let LoadPlan::Ask(info) = plan else {
        panic!("Expected limit prompt");
    };
    assert_eq!(info.source_width, 4_000);
    assert_eq!(info.source_height, 2_000);
    assert!(info.can_autoscale);
    assert!(info.can_ignore_limits);
}

#[test]
fn autoscale_fits_limits_and_preserves_aspect() {
    let cfg = limits(1_000, 1_000_000, 200_000_000);
    let plan = plan_image_load(4_000, 2_000, &cfg, ImageLoadPolicy::AutoscaleToConfig).unwrap();
    let LoadPlan::Decode { target, .. } = plan else {
        panic!("Expected ready image");
    };
    assert_eq!(target, [1_000, 500]);
    assert!(u64::from(target[0]) * u64::from(target[1]) <= cfg.total_pixels);
}

#[test]
fn ignore_policy_respects_hard_cap() {
    let cfg = limits(100_000, 5_000_000_000, 8 * 1024 * 1024 * 1024);
    let err = plan_image_load(40_000, 100, &cfg, ImageLoadPolicy::IgnoreConfigWithHardCap).unwrap_err();
    assert!(err.message().contains("hard safety limit"));
}

#[test]
fn hard_cap_breach_disables_prompt_actions() {
    let cfg = limits(1_000, 1_000_000, 50_000_000);
    let plan = plan_image_load(40_000, 100, &cfg, ImageLoadPolicy::AskUser).unwrap();
    let LoadPlan::Ask(info) = plan else {
        panic!("Expected limit prompt");
    };
    assert!(!info.can_autoscale);
    assert!(!info.can_ignore_limits);
}

#[test]
fn clipboard_prompt_autoscale_and_ignore() {
    let cfg = limits(1_000, 1_000_000, 200_000_000);
    let width = 4_000_usize;
    let height = 2_000_usize;
    let rgba = vec![255_u8; width * height * 4];

    let ask = decode_image_from_clipboard_rgba(&cfg, width, height, &rgba, ImageLoadPolicy::AskUser)
        .unwrap();
    let ImageLoadOutcome::NeedsLimitDecision(_) = ask else {
        panic!("Expected limit prompt");
    };

    let autoscaled =
        decode_image_from_clipboard_rgba(&cfg, width, height, &rgba, ImageLoadPolicy::AutoscaleToConfig)
            .unwrap();
    let ImageLoadOutcome::Ready(autoscaled) = autoscaled else {
        panic!("Expected ready autoscaled image");
    };
    assert_eq!(autoscaled.size, [1_000, 500]);
    assert_eq!(autoscaled.rgba.len(), 1_000 * 500 * 4);

    let ignored = decode_image_from_clipboard_rgba(
        &cfg,
        width,
        height,
        &rgba,
        ImageLoadPolicy::IgnoreConfigWithHardCap,
    )
    .unwrap();
    let ImageLoadOutcome::Ready(ignored) = ignored else {
        panic!("Expected ready ignored image");
    };
    assert_eq!(ignored.size, [4_000, 2_000]);
}

#[test]
fn clipboard_rejects_bad_sizes() {
    let cfg = ImageLimits::default();
    let rgba = vec![0_u8; 16];
    let zero = decode_image_from_clipboard_rgba(&cfg, 0, 2, &rgba, ImageLoadPolicy::AskUser);
    assert!(matches!(zero, Err(LoadError::Limit(LimitError::ZeroDimensions))));
    let short = decode_image_from_clipboard_rgba(&cfg, 3, 2, &rgba, ImageLoadPolicy::AskUser);
    assert!(matches!(short, Err(LoadError::ClipboardTruncated)));
    assert_eq!(
        LoadError::ClipboardTruncated.message(),
        "Paste failed: clipboard image data is truncated."
    );
}

#[test]
fn clipboard_full_size_keeps_exact_prefix() {
    let cfg = ImageLimits::default();
    let mut rgba: Vec<u8> = (0..40).map(|i| i as u8).collect();
    rgba.push(99);
    let out = decode_image_from_clipboard_rgba(&cfg, 5, 2, &rgba, ImageLoadPolicy::AskUser).unwrap();
    let ImageLoadOutcome::Ready(img) = out else {
        panic!("Expected ready image");
    };
    assert_eq!(img.size, [5, 2]);
    assert_eq!(img.rgba, rgba[..40].to_vec());
    assert!(!img.premultiplied);
}

#[test]
fn decodes_png_at_full_size() {
    let (bytes, raw) = png_bytes(3, 2);
    let out = decode_raster_bytes(&bytes, &ImageLimits::default(), ImageLoadPolicy::AskUser).unwrap();
    let ImageLoadOutcome::Ready(img) = out else {
        panic!("Expected ready image");
    };
    assert_eq!(img.size, [3, 2]);
    assert_eq!(img.rgba, raw);
}

#[test]
fn autoscales_png_to_configured_side() {
    let (bytes, _) = png_bytes(128, 64);
    let cfg = limits(1, 1, 1);
    let asked = decode_raster_bytes(&bytes, &cfg, ImageLoadPolicy::AskUser).unwrap();
    assert!(matches!(asked, ImageLoadOutcome::NeedsLimitDecision(_)));
    let out = decode_raster_bytes(&bytes, &cfg, ImageLoadPolicy::AutoscaleToConfig).unwrap();
    let ImageLoadOutcome::Ready(img) = out else {
        panic!("Expected ready image");
    };
    assert_eq!(img.size, [64, 32]);
    assert_eq!(img.rgba.len(), 64 * 32 * 4);
}

#[test]
fn unreadable_data_reports_header_error() {
    let err = decode_raster_bytes(b"hello", &ImageLimits::default(), ImageLoadPolicy::AskUser)
        .err()
        .unwrap();
    assert_eq!(err, LoadError::Dimensions);
    assert_eq!(err.message(), "Failed to read image dimensions");
}

#[test]
fn svg_detection_by_extension_and_content() {
    assert!(is_svg_extension("svg"));
    assert!(is_svg_extension("SVGZ"));
    assert!(!is_svg_extension("png"));
    assert!(!is_svg_extension("svgx"));
    assert!(should_try_svg(false, b"  <svg xmlns='x'/>"));
    assert!(should_try_svg(true, b"\x89PNG"));
    assert!(!should_try_svg(false, b"\x89PNG"));
}

#[test]
fn zero_sized_plan_is_rejected() {
    let err = plan_image_load(0, 10, &ImageLimits::default(), ImageLoadPolicy::AskUser).unwrap_err();
    assert_eq!(err, LimitError::ZeroDimensions);
    assert_eq!(err.message(), "Image has invalid zero dimensions");
}
