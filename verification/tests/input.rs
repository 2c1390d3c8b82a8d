use curcat::decode::{svg_failure_message, svg_parse_step, SvgStep};
use curcat::export::ExportFormat;
use curcat::input::{
    dialog_step, hotkey_action, hotkey_order, DialogKind, DialogOutcome, HotKey, HotkeyAction, HotkeyContext,
};

fn cx(command: bool, shift: bool) -> HotkeyContext {
    HotkeyContext { typing: false, command, shift, dialog_open: false, has_image: true, image_has_path: true }
}

#[test]
fn shortcuts_follow_the_table() {
    assert_eq!(hotkey_action(HotKey::B, cx(true, false)), Some(HotkeyAction::ToggleSidePanel));
    assert_eq!(hotkey_action(HotKey::O, cx(true, false)), Some(HotkeyAction::OpenImage));
    assert_eq!(hotkey_action(HotKey::P, cx(true, false)), None);
    assert_eq!(hotkey_action(HotKey::P, cx(true, true)), Some(HotkeyAction::OpenProject));
    assert_eq!(hotkey_action(HotKey::C, cx(true, true)), Some(HotkeyAction::Export(ExportFormat::Csv)));
    assert_eq!(hotkey_action(HotKey::R, cx(true, true)), Some(HotkeyAction::Export(ExportFormat::Ron)));
    assert_eq!(hotkey_action(HotKey::R, cx(true, false)), Some(HotkeyAction::ResetView));
    assert_eq!(hotkey_action(HotKey::F, cx(true, true)), Some(HotkeyAction::ShowFilters));
    assert_eq!(hotkey_action(HotKey::F, cx(true, false)), Some(HotkeyAction::FitView));
    assert_eq!(hotkey_action(HotKey::Z, cx(true, true)), Some(HotkeyAction::Undo));
    assert_eq!(hotkey_action(HotKey::Z, cx(false, false)), None);
}

#[test]
fn shortcuts_wait_for_dialogs_typing_and_images() {
    let busy = HotkeyContext { dialog_open: true, ..cx(true, true) };
    assert_eq!(hotkey_action(HotKey::E, busy), None);
    assert_eq!(hotkey_action(HotKey::D, busy), Some(HotkeyAction::ClearPoints));
    let typing = HotkeyContext { typing: true, ..cx(true, false) };
    assert_eq!(hotkey_action(HotKey::Z, typing), None);
    assert_eq!(hotkey_action(HotKey::Escape, typing), Some(HotkeyAction::CancelPick));
    let no_image = HotkeyContext { has_image: false, image_has_path: false, ..cx(true, false) };
    assert_eq!(hotkey_action(HotKey::I, no_image), None);
    assert_eq!(hotkey_action(HotKey::S, no_image), None);
    assert_eq!(hotkey_order().len(), 15);
}

#[test]
fn dialogs_report_cancellation_and_use_picked_paths() {
    let picked = dialog_step(DialogKind::OpenImage, DialogOutcome::Picked);
    assert!(picked.close && picked.use_path && picked.cancel_status.is_none());
    assert_eq!(dialog_step(DialogKind::OpenImage, DialogOutcome::Cancelled).cancel_status, Some("Open canceled."));
    assert_eq!(
        dialog_step(DialogKind::SaveProject, DialogOutcome::Cancelled).cancel_status,
        Some("Project save canceled.")
    );
    assert_eq!(
        dialog_step(DialogKind::SaveExport(ExportFormat::Json), DialogOutcome::Cancelled).cancel_status,
        Some("Export canceled.")
    );
    let open = dialog_step(DialogKind::OpenProject, DialogOutcome::Open);
    assert!(!open.close && !open.use_path);
    let closed = dialog_step(DialogKind::OpenProject, DialogOutcome::Closed);
    assert!(closed.close && !closed.use_path && closed.cancel_status.is_none());
}

#[test]
fn svg_failures_fall_back_unless_the_extension_promised_svg() {
    assert_eq!(svg_parse_step(true, true), SvgStep::Render);
    assert_eq!(svg_parse_step(false, true), SvgStep::Render);
    assert_eq!(svg_parse_step(true, false), SvgStep::Fail);
    assert_eq!(svg_parse_step(false, false), SvgStep::FallBackToRaster);
    assert_eq!(svg_failure_message("bad tag"), "Failed to parse SVG data: bad tag");
}
