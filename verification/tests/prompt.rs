use curcat::config::ImageLimits;
use curcat::decode::{plan_image_load, LoadPlan};
use curcat::i18n::UiLanguage;
use curcat::limits::ImageLoadPolicy;
use curcat::prompt::{
    format_autoscale_line, format_limits_line, format_source_line, resolve_limit_prompt,
    shows_action_unavailable, PromptResolution,
};

fn ask_info(w: u32, h: u32) -> curcat::limits::ImageLimitInfo {
    let cfg = ImageLimits { image_dim: 1_000, total_pixels: 1_000_000, alloc_bytes: 50_000_000 };
    match plan_image_load(w, h, &cfg, ImageLoadPolicy::AskUser).unwrap() {
        LoadPlan::Ask(info) => info,
        LoadPlan::Decode { .. } => panic!("Expected limit prompt"),
    }
}

#[test]
fn prompt_lines_describe_source_limits_and_offer() {
    let info = ask_info(4_000, 2_000);
    assert_eq!(
        format_source_line(UiLanguage::En, "Source image", "plot.png", &info),
        "Source image: plot.png — 4000x2000 px (~8.00 MP, 30.52 MiB)"
    );
    assert_eq!(
        format_source_line(UiLanguage::Ru, "Источник", "a", &info),
        "Источник: a — 4000x2000 px (~8.00 МП, 30.52 MiB)"
    );
    assert_eq!(
        format_limits_line(UiLanguage::En, "Configured limits", &ImageLimits::default()),
        "Configured limits: side <= 12000 px, pixels <= 80 MP, RGBA <= 512.00 MiB"
    );
    assert_eq!(format_autoscale_line("Suggested", &info), "Suggested: 1000x500 px");
    let blocked = ask_info(40_000, 100);
    assert_eq!(format_autoscale_line("Suggested", &blocked), "Suggested: -");
    assert!(shows_action_unavailable(&blocked));
    assert!(!shows_action_unavailable(&info));
}

#[test]
fn prompt_answers_lead_to_retry_or_reject() {
    let info = ask_info(4_000, 2_000);
    let blocked = ask_info(40_000, 100);
    assert_eq!(
        resolve_limit_prompt(&info, true, true, true, false),
        PromptResolution::Retry(ImageLoadPolicy::AutoscaleToConfig)
    );
    assert_eq!(
        resolve_limit_prompt(&info, true, false, false, true),
        PromptResolution::Retry(ImageLoadPolicy::IgnoreConfigWithHardCap)
    );
    assert_eq!(resolve_limit_prompt(&blocked, true, false, true, true), PromptResolution::Pending);
    assert_eq!(resolve_limit_prompt(&blocked, false, false, true, false), PromptResolution::Reject);
    assert_eq!(resolve_limit_prompt(&info, true, false, false, false), PromptResolution::Pending);
}
