use curcat::calibration::PickMode;
use curcat::i18n::UiLanguage;
use curcat::ui::{copy_details_label, cursor_mode_chip, pick_mode_chip, status_rgb, ModeChip};
use curcat::ui::{
    auto_trace_direction_label, status_tick, status_ttl_secs, AutoTraceDirection, SidePanelPosition,
    StatusLevel, StatusMessage, TimerTick, UiState,
};
use std::time::Instant;

const SEC: u128 = 1_000_000_000;

#[test]
fn start_up_state() {
    let ui = UiState::new(UiLanguage::Ru);
    assert!(ui.side_open);
    assert_eq!(ui.side_position, SidePanelPosition::Right);
    assert!(!ui.info_window_open && !ui.points_info_window_open);
    assert!(!ui.image_filters_window_open && !ui.auto_trace_window_open);
    assert!(ui.last_status.is_none());
}

#[test]
fn status_lifetimes() {
    assert_eq!(status_ttl_secs(StatusLevel::Info), Some(6));
    assert_eq!(status_ttl_secs(StatusLevel::Warn), Some(10));
    assert_eq!(status_ttl_secs(StatusLevel::Error), None);
    assert_eq!(status_tick(StatusLevel::Info, 6 * SEC), TimerTick::Expire);
    assert_eq!(status_tick(StatusLevel::Info, 4 * SEC), TimerTick::RepaintAfter(2 * SEC));
    assert_eq!(status_tick(StatusLevel::Warn, 9 * SEC), TimerTick::RepaintAfter(SEC));
    assert_eq!(status_tick(StatusLevel::Error, 1_000 * SEC), TimerTick::Keep);
}

#[test]
fn timers_expire_messages_and_feedback() {
    let mut ui = UiState::new(UiLanguage::En);
    ui.last_status = Some(StatusMessage {
        text: "Loaded".to_string(),
        level: StatusLevel::Info,
        created_at: Instant::now(),
    });
    ui.status_copy_feedback_until = Some(Instant::now());
    let (status, feedback) = ui.tick_status_timers(SEC, 500);
    assert_eq!(status, Some(5 * SEC));
    assert_eq!(feedback, Some(500));
    assert!(ui.last_status.is_some());
    let (status, feedback) = ui.tick_status_timers(7 * SEC, 0);
    assert_eq!((status, feedback), (None, None));
    assert!(ui.last_status.is_none());
    assert!(ui.status_copy_feedback_until.is_none());

    ui.last_status = Some(StatusMessage {
        text: "Failed".to_string(),
        level: StatusLevel::Error,
        created_at: Instant::now(),
    });
    let (status, _) = ui.tick_status_timers(3_600 * SEC, 0);
    assert_eq!(status, None);
    assert!(ui.last_status.is_some());
    ui.dismiss_status();
    assert!(ui.last_status.is_none());
}

#[test]
fn tracing_direction_labels() {
    assert_eq!(auto_trace_direction_label(UiLanguage::En, AutoTraceDirection::Forward), "Forward (+X)");
    assert_eq!(auto_trace_direction_label(UiLanguage::Ru, AutoTraceDirection::Both), "В обе стороны");
}

#[test]
fn pointer_mode_chip_priorities() {
    assert_eq!(pick_mode_chip(PickMode::Idle, UiLanguage::En), None);
    assert_eq!(
        pick_mode_chip(PickMode::Origin, UiLanguage::Ru),
        Some(ModeChip { label: "Выбор начала", rgb: [255, 230, 180] })
    );
    let picking = cursor_mode_chip(PickMode::Y1, UiLanguage::En, true, true, true, true);
    assert_eq!(picking, ModeChip { label: "Pick Y1", rgb: [200, 255, 200] });
    let auto = cursor_mode_chip(PickMode::Idle, UiLanguage::En, true, true, false, false);
    assert_eq!(auto.label, "Auto-place");
    let del = cursor_mode_chip(PickMode::Idle, UiLanguage::En, false, true, true, true);
    assert_eq!(del, ModeChip { label: "Delete point", rgb: [255, 150, 150] });
    let zoom = cursor_mode_chip(PickMode::Idle, UiLanguage::Ru, false, false, false, true);
    assert_eq!(zoom.label, "Масштаб");
    let normal = cursor_mode_chip(PickMode::Idle, UiLanguage::En, false, false, false, false);
    assert_eq!(normal, ModeChip { label: "Normal", rgb: [210, 210, 210] });
    assert_eq!(status_rgb(StatusLevel::Warn), [242, 194, 102]);
    assert_eq!(copy_details_label(UiLanguage::En, true), "Copied");
}
