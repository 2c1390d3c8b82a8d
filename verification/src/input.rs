//! Global keyboard shortcuts and what a finished file dialog leads to.

use vstd::prelude::*;
use crate::export::{export_shortcut_spec, ExportFormat};

verus! {

/// A key with a global shortcut.
#[derive(Debug, Clone, Copy, PartialEq, Eq, Structural)]
pub enum HotKey {
    B,
    O,
    P,
    S,
    V,
    C,
    J,
    R,
    E,
    D,
    I,
    F,
    T,
    Z,
    Escape,
}

/// What a shortcut does.
#[derive(Debug, Clone, Copy, PartialEq, Eq, Structural)]
pub enum HotkeyAction {
    ToggleSidePanel,
    OpenImage,
    OpenProject,
    SaveProject,
    PasteImage,
    Export(ExportFormat),
    ClearPoints,
    ShowImageInfo,
    ShowFilters,
    ShowAutoTrace,
    FitView,
    ResetView,
    Undo,
    CancelPick,
}

/// The state a shortcut is judged in.
#[derive(Debug, Clone, Copy, PartialEq, Eq, Structural)]
pub struct HotkeyContext {
    /// A text field has the keyboard.
    pub typing: bool,
    /// Ctrl (Cmd on macOS) is held.
    pub command: bool,
    pub shift: bool,
    /// A file dialog is open.
    pub dialog_open: bool,
    pub has_image: bool,
    /// The image was loaded from a file.
    pub image_has_path: bool,
}

/// The shortcut table. Escape always cancels picking; the others act only
/// while no text field has the keyboard and Ctrl/Cmd is held: B toggles the
/// side panel; O, Shift+P, S (image from a file), V and Shift+C/J/R/E open a
/// dialog or paste only while no dialog is open; Shift+D clears the points;
/// I shows image information when there is an image; Shift+F and Shift+T open
/// the filter and auto-trace windows; F and R without Shift fit and reset the
/// view of an image; Z undoes.
pub open spec fn hotkey_spec(key: HotKey, cx: HotkeyContext) -> Option<HotkeyAction> {
    let free = !cx.dialog_open;
    if key == HotKey::Escape {
        Some(HotkeyAction::CancelPick)
    } else if cx.typing || !cx.command {
        None
    } else {
        match key {
            HotKey::B => Some(HotkeyAction::ToggleSidePanel),
            HotKey::O => if free { Some(HotkeyAction::OpenImage) } else { None },
            HotKey::P => if free && cx.shift { Some(HotkeyAction::OpenProject) } else { None },
            HotKey::S => if free && cx.image_has_path { Some(HotkeyAction::SaveProject) } else { None },
            HotKey::V => if free { Some(HotkeyAction::PasteImage) } else { None },
            HotKey::C => if free && cx.shift { Some(HotkeyAction::Export(ExportFormat::Csv)) } else { None },
            HotKey::J => if free && cx.shift { Some(HotkeyAction::Export(ExportFormat::Json)) } else { None },
            HotKey::R => if cx.shift {
                if free { Some(HotkeyAction::Export(ExportFormat::Ron)) } else { None }
            } else if cx.has_image {
                Some(HotkeyAction::ResetView)
            } else {
                None
            },
            HotKey::E => if free && cx.shift { Some(HotkeyAction::Export(ExportFormat::Xlsx)) } else { None },
            HotKey::D => if cx.shift { Some(HotkeyAction::ClearPoints) } else { None },
            HotKey::I => if cx.has_image { Some(HotkeyAction::ShowImageInfo) } else { None },
            HotKey::F => if cx.shift {
                Some(HotkeyAction::ShowFilters)
            } else if cx.has_image {
                Some(HotkeyAction::FitView)
            } else {
                None
            },
            HotKey::T => if cx.shift { Some(HotkeyAction::ShowAutoTrace) } else { None },
            HotKey::Z => Some(HotkeyAction::Undo),
            HotKey::Escape => Some(HotkeyAction::CancelPick),
        }
    }
}

/// The action of a pressed key, if any.
pub fn hotkey_action(key: HotKey, cx: HotkeyContext) -> (r: Option<HotkeyAction>)
    ensures
        r == hotkey_spec(key, cx),
{
    if key == HotKey::Escape {
        return Some(HotkeyAction::CancelPick);
    }
    if cx.typing || !cx.command {
        return None;
    }
    let free = !cx.dialog_open;
    match key {
        HotKey::B => Some(HotkeyAction::ToggleSidePanel),
        HotKey::O => if free { Some(HotkeyAction::OpenImage) } else { None },
        HotKey::P => if free && cx.shift { Some(HotkeyAction::OpenProject) } else { None },
        HotKey::S => if free && cx.image_has_path { Some(HotkeyAction::SaveProject) } else { None },
        HotKey::V => if free { Some(HotkeyAction::PasteImage) } else { None },
        HotKey::C => if free && cx.shift { Some(HotkeyAction::Export(ExportFormat::Csv)) } else { None },
        HotKey::J => if free && cx.shift { Some(HotkeyAction::Export(ExportFormat::Json)) } else { None },
        HotKey::R => if cx.shift {
            if free { Some(HotkeyAction::Export(ExportFormat::Ron)) } else { None }
        } else if cx.has_image {
            Some(HotkeyAction::ResetView)
        } else {
            None
        },
        HotKey::E => if free && cx.shift { Some(HotkeyAction::Export(ExportFormat::Xlsx)) } else { None },
        HotKey::D => if cx.shift { Some(HotkeyAction::ClearPoints) } else { None },
        HotKey::I => if cx.has_image { Some(HotkeyAction::ShowImageInfo) } else { None },
        HotKey::F => if cx.shift {
            Some(HotkeyAction::ShowFilters)
        } else if cx.has_image {
            Some(HotkeyAction::FitView)
        } else {
            None
        },
        HotKey::T => if cx.shift { Some(HotkeyAction::ShowAutoTrace) } else { None },
        HotKey::Z => Some(HotkeyAction::Undo),
        HotKey::Escape => Some(HotkeyAction::CancelPick),
    }
}

/// The order in which the keys pressed in one frame are handled; an action
/// that opens a dialog makes the later dialog shortcuts of that frame wait.
pub open spec fn hotkey_order_spec() -> Seq<HotKey> {
    seq![
        HotKey::B, HotKey::O, HotKey::P, HotKey::S, HotKey::V, HotKey::C, HotKey::J, HotKey::R,
        HotKey::E, HotKey::D, HotKey::I, HotKey::F, HotKey::T, HotKey::Z, HotKey::Escape,
    ]
}

pub fn hotkey_order() -> (r: Vec<HotKey>)
    ensures
        r@ == hotkey_order_spec(),
{
    let r = vec![
        HotKey::B, HotKey::O, HotKey::P, HotKey::S, HotKey::V, HotKey::C, HotKey::J, HotKey::R,
        HotKey::E, HotKey::D, HotKey::I, HotKey::F, HotKey::T, HotKey::Z, HotKey::Escape,
    ];
    assert(r@ =~= hotkey_order_spec());
    r
}

/// Which file dialog is open.
#[derive(Debug, Clone, Copy, PartialEq, Eq, Structural)]
pub enum DialogKind {
    OpenImage,
    OpenProject,
    SaveProject,
    SaveExport(ExportFormat),
}

/// What the dialog reported this frame.
#[derive(Debug, Clone, Copy, PartialEq, Eq, Structural)]
pub enum DialogOutcome {
    /// A path was chosen.
    Picked,
    Cancelled,
    /// Closed without a choice.
    Closed,
    /// Still open.
    Open,
}

/// What the application does with a dialog's report.
#[derive(Debug, Clone, Copy, PartialEq, Eq)]
pub struct DialogStep {
    /// The dialog is closed.
    pub close: bool,
    /// The chosen path is used: load, open, save or export to it.
    pub use_path: bool,
    /// Status line to show (a cancelled dialog).
    pub cancel_status: Option<&'static str>,
}

pub open spec fn cancel_text_spec(kind: DialogKind) -> Seq<char> {
    match kind {
        DialogKind::OpenImage => "Open canceled."@,
        DialogKind::OpenProject => "Project open canceled."@,
        DialogKind::SaveProject => "Project save canceled."@,
        DialogKind::SaveExport(_) => "Export canceled."@,
    }
}

/// A chosen path is used and the dialog closes; a cancelled dialog closes
/// with a status line naming what was cancelled; a dialog closed otherwise
/// just closes; an open one stays.
pub fn dialog_step(kind: DialogKind, outcome: DialogOutcome) -> (r: DialogStep)
    ensures
        r.close == (outcome != DialogOutcome::Open),
        r.use_path == (outcome == DialogOutcome::Picked),
        outcome == DialogOutcome::Cancelled ==> (r.cancel_status matches Some(t) && t@ == cancel_text_spec(kind)),
        outcome != DialogOutcome::Cancelled ==> r.cancel_status is None,
{
    match outcome {
        DialogOutcome::Picked => DialogStep { close: true, use_path: true, cancel_status: None },
        DialogOutcome::Closed => DialogStep { close: true, use_path: false, cancel_status: None },
        DialogOutcome::Open => DialogStep { close: false, use_path: false, cancel_status: None },
        DialogOutcome::Cancelled => {
            let text = match kind {
                DialogKind::OpenImage => "Open canceled.",
                DialogKind::OpenProject => "Project open canceled.",
                DialogKind::SaveProject => "Project save canceled.",
                DialogKind::SaveExport(_) => "Export canceled.",
            };
            DialogStep { close: true, use_path: false, cancel_status: Some(text) }
        },
    }
}

/// The letter printed on a key (none for Escape).
pub open spec fn key_letter(key: HotKey) -> char {
    match key {
        HotKey::B => 'B',
        HotKey::O => 'O',
        HotKey::P => 'P',
        HotKey::S => 'S',
        HotKey::V => 'V',
        HotKey::C => 'C',
        HotKey::J => 'J',
        HotKey::R => 'R',
        HotKey::E => 'E',
        HotKey::D => 'D',
        HotKey::I => 'I',
        HotKey::F => 'F',
        HotKey::T => 'T',
        HotKey::Z => 'Z',
        HotKey::Escape => '\u{1b}',
    }
}

spec fn shortcut_letter(f: ExportFormat) -> char {
    match f {
        ExportFormat::Csv => 'C',
        ExportFormat::Json => 'J',
        ExportFormat::Ron => 'R',
        ExportFormat::Xlsx => 'E',
        ExportFormat::Html => 'H',
        ExportFormat::Xml => 'X',
        ExportFormat::Markdown => 'M',
    }
}

proof fn lemma_shortcut_text(f: ExportFormat)
    ensures
        export_shortcut_spec(f) == "Ctrl+Shift+"@.push(shortcut_letter(f)),
{
    reveal_strlit("Ctrl+Shift+");
    reveal_strlit("Ctrl+Shift+C");
    reveal_strlit("Ctrl+Shift+J");
    reveal_strlit("Ctrl+Shift+R");
    reveal_strlit("Ctrl+Shift+E");
    reveal_strlit("Ctrl+Shift+H");
    reveal_strlit("Ctrl+Shift+X");
    reveal_strlit("Ctrl+Shift+M");
    assert(export_shortcut_spec(f) =~= "Ctrl+Shift+"@.push(shortcut_letter(f)));
}

/// With Ctrl/Cmd and Shift held, no text field focused and no dialog open,
/// a key starts an export exactly in the format whose shortcut, as the
/// export panel shows it, names that key.
pub proof fn lemma_export_shortcuts_name_their_keys(key: HotKey, f: ExportFormat, cx: HotkeyContext)
    requires
        !cx.typing,
        cx.command,
        cx.shift,
        !cx.dialog_open,
        key != HotKey::Escape,
    ensures
        hotkey_spec(key, cx) == Some(HotkeyAction::Export(f)) <==> export_shortcut_spec(f)
            == "Ctrl+Shift+"@.push(key_letter(key)),
{
    lemma_shortcut_text(f);
    let a = "Ctrl+Shift+"@.push(shortcut_letter(f));
    let b = "Ctrl+Shift+"@.push(key_letter(key));
    if a == b {
        assert(a.last() == b.last());
    }
}

} // verus!
