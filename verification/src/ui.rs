//! State of the user interface that outlives a frame: panels, windows and the
//! status line with its timers.

use vstd::prelude::*;
use std::time::Instant;
use crate::calibration::PickMode;
use crate::i18n::UiLanguage;

verus! {

#[verifier::external_type_specification]
#[verifier::external_body]
pub struct ExInstant(Instant);

/// Side of the window that holds the control panel.
#[derive(Debug, Clone, Copy, PartialEq, Eq, Structural)]
pub enum SidePanelPosition {
    Left,
    Right,
}

/// Severity of a status message.
#[derive(Debug, Clone, Copy, PartialEq, Eq, Structural)]
pub enum StatusLevel {
    Info,
    Warn,
    Error,
}

/// Axis of a statistic.
#[derive(Debug, Clone, Copy, PartialEq, Eq, Structural)]
pub enum AxisKind {
    X,
    Y,
}

/// How a click places a point.
#[derive(Debug, Clone, Copy, PartialEq, Eq, Structural)]
pub enum PointInputMode {
    Free,
    ContrastSnap,
    CenterlineSnap,
}

/// Direction in which automatic tracing follows a curve.
#[derive(Debug, Clone, Copy, PartialEq, Eq, Structural)]
pub enum AutoTraceDirection {
    Forward,
    Backward,
    Both,
}

pub open spec fn auto_trace_direction_label_spec(lang: UiLanguage, dir: AutoTraceDirection) -> Seq<char> {
    match (lang, dir) {
        (UiLanguage::En, AutoTraceDirection::Forward) => "Forward (+X)"@,
        (UiLanguage::En, AutoTraceDirection::Backward) => "Backward (-X)"@,
        (UiLanguage::En, AutoTraceDirection::Both) => "Both"@,
        (UiLanguage::Ru, AutoTraceDirection::Forward) => "Вперёд (+X)"@,
        (UiLanguage::Ru, AutoTraceDirection::Backward) => "Назад (-X)"@,
        (UiLanguage::Ru, AutoTraceDirection::Both) => "В обе стороны"@,
    }
}

/// Name of a tracing direction in the interface language.
pub fn auto_trace_direction_label(lang: UiLanguage, dir: AutoTraceDirection) -> (r: &'static str)
    ensures
        r@ == auto_trace_direction_label_spec(lang, dir),
{
    match (lang, dir) {
        (UiLanguage::En, AutoTraceDirection::Forward) => "Forward (+X)",
        (UiLanguage::En, AutoTraceDirection::Backward) => "Backward (-X)",
        (UiLanguage::En, AutoTraceDirection::Both) => "Both",
        (UiLanguage::Ru, AutoTraceDirection::Forward) => "Вперёд (+X)",
        (UiLanguage::Ru, AutoTraceDirection::Backward) => "Назад (-X)",
        (UiLanguage::Ru, AutoTraceDirection::Both) => "В обе стороны",
    }
}

/// A message in the status line, with the moment it was shown.
pub struct StatusMessage {
    pub text: String,
    pub level: StatusLevel,
    pub created_at: Instant,
}

/// Panels, windows and the status line.
pub struct UiState {
    pub language: UiLanguage,
    pub side_open: bool,
    pub side_position: SidePanelPosition,
    pub info_window_open: bool,
    pub points_info_window_open: bool,
    pub image_filters_window_open: bool,
    pub auto_trace_window_open: bool,
    pub last_status: Option<StatusMessage>,
    pub status_copy_feedback_until: Option<Instant>,
}

impl UiState {
    /// The state at start-up: the control panel open on the right, every
    /// window closed, no status.
    pub fn new(language: UiLanguage) -> (r: UiState)
        ensures
            r.language == language,
            r.side_open,
            r.side_position == SidePanelPosition::Right,
            !r.info_window_open,
            !r.points_info_window_open,
            !r.image_filters_window_open,
            !r.auto_trace_window_open,
            r.last_status is None,
            r.status_copy_feedback_until is None,
    {
        UiState {
            language,
            side_open: true,
            side_position: SidePanelPosition::Right,
            info_window_open: false,
            points_info_window_open: false,
            image_filters_window_open: false,
            auto_trace_window_open: false,
            last_status: None,
            status_copy_feedback_until: None,
        }
    }
}

pub const NANOS_PER_SECOND: u128 = 1_000_000_000;

/// How long a status message stays, in seconds: 6 for information, 10 for
/// warnings; errors stay until dismissed.
pub open spec fn status_ttl_secs_spec(level: StatusLevel) -> Option<u64> {
    match level {
        StatusLevel::Info => Some(6),
        StatusLevel::Warn => Some(10),
        StatusLevel::Error => None,
    }
}

pub fn status_ttl_secs(level: StatusLevel) -> (r: Option<u64>)
    ensures
        r == status_ttl_secs_spec(level),
{
    match level {
        StatusLevel::Info => Some(6),
        StatusLevel::Warn => Some(10),
        StatusLevel::Error => None,
    }
}

/// How long the "Copied" feedback stays, in seconds.
pub const STATUS_COPY_FEEDBACK_SECS: u64 = 2;

/// What becomes of a timed element of the status line.
#[derive(Debug, Clone, Copy, PartialEq, Eq, Structural)]
pub enum TimerTick {
    /// Its time is up: remove it.
    Expire,
    /// Keep it and draw again after this many nanoseconds.
    RepaintAfter(u128),
    /// Keep it; nothing is due.
    Keep,
}

/// The fate of a status message of `level` shown `elapsed_nanos` ago: it
/// expires once its time to live has passed, else the interface is redrawn
/// when the rest of it has passed; errors have no time to live.
pub open spec fn status_tick_spec(level: StatusLevel, elapsed_nanos: u128) -> TimerTick {
    match status_ttl_secs_spec(level) {
        None => TimerTick::Keep,
        Some(secs) => {
            let ttl = secs * NANOS_PER_SECOND;
            if elapsed_nanos >= ttl {
                TimerTick::Expire
            } else {
                TimerTick::RepaintAfter((ttl - elapsed_nanos) as u128)
            }
        },
    }
}

pub fn status_tick(level: StatusLevel, elapsed_nanos: u128) -> (r: TimerTick)
    ensures
        r == status_tick_spec(level, elapsed_nanos),
{
    match status_ttl_secs(level) {
        None => TimerTick::Keep,
        Some(secs) => {
            let ttl = secs as u128 * NANOS_PER_SECOND;
            if elapsed_nanos >= ttl {
                TimerTick::Expire
            } else {
                TimerTick::RepaintAfter(ttl - elapsed_nanos)
            }
        },
    }
}

/// The fate of a deadline that is `remaining_nanos` away (zero once it has
/// passed): expired at the deadline, else redraw when it comes.
pub open spec fn deadline_tick_spec(remaining_nanos: u128) -> TimerTick {
    if remaining_nanos == 0 {
        TimerTick::Expire
    } else {
        TimerTick::RepaintAfter(remaining_nanos)
    }
}

impl UiState {
    /// Expires the status message and the copy feedback whose time is up.
    /// `status_elapsed_nanos` is the age of the status message and
    /// `feedback_remaining_nanos` the time left until the feedback deadline
    /// (zero once passed). Returns when to redraw for each that stays.
    pub fn tick_status_timers(&mut self, status_elapsed_nanos: u128, feedback_remaining_nanos: u128) -> (r: (
        Option<u128>,
        Option<u128>,
    ))
        ensures
            final(self).language == old(self).language,
            final(self).side_open == old(self).side_open,
            final(self).side_position == old(self).side_position,
            final(self).info_window_open == old(self).info_window_open,
            final(self).points_info_window_open == old(self).points_info_window_open,
            final(self).image_filters_window_open == old(self).image_filters_window_open,
            final(self).auto_trace_window_open == old(self).auto_trace_window_open,
            match old(self).last_status {
                None => final(self).last_status is None && r.0 is None,
                Some(m) => match status_tick_spec(m.level, status_elapsed_nanos) {
                    TimerTick::Expire => final(self).last_status is None && r.0 is None,
                    TimerTick::RepaintAfter(d) => final(self).last_status == old(self).last_status && r.0
                        == Some(d),
                    TimerTick::Keep => final(self).last_status == old(self).last_status && r.0 is None,
                },
            },
            match old(self).status_copy_feedback_until {
                None => final(self).status_copy_feedback_until is None && r.1 is None,
                Some(_) => match deadline_tick_spec(feedback_remaining_nanos) {
                    TimerTick::RepaintAfter(d) => final(self).status_copy_feedback_until == old(
                        self,
                    ).status_copy_feedback_until && r.1 == Some(d),
                    _ => final(self).status_copy_feedback_until is None && r.1 is None,
                },
            },
    {
        let mut status_repaint: Option<u128> = None;
        let mut expire_status = false;
        match &self.last_status {
            Some(m) => match status_tick(m.level, status_elapsed_nanos) {
                TimerTick::Expire => {
                    expire_status = true;
                },
                TimerTick::RepaintAfter(d) => {
                    status_repaint = Some(d);
                },
                TimerTick::Keep => {},
            },
            None => {},
        }
        if expire_status {
            self.last_status = None;
        }
        let mut feedback_repaint: Option<u128> = None;
        if self.status_copy_feedback_until.is_some() {
            if feedback_remaining_nanos == 0 {
                self.status_copy_feedback_until = None;
            } else {
                feedback_repaint = Some(feedback_remaining_nanos);
            }
        }
        (status_repaint, feedback_repaint)
    }

    /// Removes the status message and its copy feedback.
    pub fn dismiss_status(&mut self)
        ensures
            final(self).last_status is None,
            final(self).status_copy_feedback_until is None,
            final(self).language == old(self).language,
            final(self).side_open == old(self).side_open,
            final(self).side_position == old(self).side_position,
            final(self).info_window_open == old(self).info_window_open,
            final(self).points_info_window_open == old(self).points_info_window_open,
            final(self).image_filters_window_open == old(self).image_filters_window_open,
            final(self).auto_trace_window_open == old(self).auto_trace_window_open,
    {
        self.last_status = None;
        self.status_copy_feedback_until = None;
    }
}

// ---------------------------------------------------------------------------
// The mode chip and the status line.

/// Label and colour (red, green, blue) of the chip that shows the pointer mode.
#[derive(Debug, Clone, Copy, PartialEq, Eq)]
pub struct ModeChip {
    pub label: &'static str,
    pub rgb: [u8; 3],
}

/// Label of the chip for a pick mode; none when nothing is being picked.
pub open spec fn pick_chip_label(mode: PickMode, lang: UiLanguage) -> Option<Seq<char>> {
    match (mode, lang) {
        (PickMode::X1, UiLanguage::En) => Some("Pick X1"@),
        (PickMode::X1, UiLanguage::Ru) => Some("Выбор X1"@),
        (PickMode::X2, UiLanguage::En) => Some("Pick X2"@),
        (PickMode::X2, UiLanguage::Ru) => Some("Выбор X2"@),
        (PickMode::Y1, UiLanguage::En) => Some("Pick Y1"@),
        (PickMode::Y1, UiLanguage::Ru) => Some("Выбор Y1"@),
        (PickMode::Y2, UiLanguage::En) => Some("Pick Y2"@),
        (PickMode::Y2, UiLanguage::Ru) => Some("Выбор Y2"@),
        (PickMode::Origin, UiLanguage::En) => Some("Pick origin"@),
        (PickMode::Origin, UiLanguage::Ru) => Some("Выбор начала"@),
        (PickMode::R1, UiLanguage::En) => Some("Pick R1"@),
        (PickMode::R1, UiLanguage::Ru) => Some("Выбор R1"@),
        (PickMode::R2, UiLanguage::En) => Some("Pick R2"@),
        (PickMode::R2, UiLanguage::Ru) => Some("Выбор R2"@),
        (PickMode::A1, UiLanguage::En) => Some("Pick A1"@),
        (PickMode::A1, UiLanguage::Ru) => Some("Выбор A1"@),
        (PickMode::A2, UiLanguage::En) => Some("Pick A2"@),
        (PickMode::A2, UiLanguage::Ru) => Some("Выбор A2"@),
        (PickMode::CurveColor, UiLanguage::En) => Some("Pick curve color"@),
        (PickMode::CurveColor, UiLanguage::Ru) => Some("Выбор цвета кривой"@),
        (PickMode::AutoTrace, UiLanguage::En) => Some("Auto-trace pick"@),
        (PickMode::AutoTrace, UiLanguage::Ru) => Some("Авто-трассировка"@),
        (PickMode::Idle, _) => None,
    }
}

/// Colour of the chip for a pick mode.
pub open spec fn pick_chip_rgb(mode: PickMode) -> [u8; 3] {
    match mode {
        PickMode::X1 => [190u8, 225u8, 255u8],
        PickMode::X2 => [190u8, 225u8, 255u8],
        PickMode::Y1 => [200u8, 255u8, 200u8],
        PickMode::Y2 => [200u8, 255u8, 200u8],
        PickMode::Origin => [255u8, 230u8, 180u8],
        PickMode::R1 => [255u8, 210u8, 160u8],
        PickMode::R2 => [255u8, 210u8, 160u8],
        PickMode::A1 => [200u8, 210u8, 255u8],
        PickMode::A2 => [200u8, 210u8, 255u8],
        PickMode::CurveColor => [255u8, 210u8, 160u8],
        PickMode::AutoTrace => [215u8, 215u8, 255u8],
        PickMode::Idle => [0u8, 0u8, 0u8],
    }
}

/// The chip for a pick mode; none when nothing is being picked.
pub fn pick_mode_chip(mode: PickMode, lang: UiLanguage) -> (r: Option<ModeChip>)
    ensures
        r is None <==> mode == PickMode::Idle,
        r matches Some(c) ==> pick_chip_label(mode, lang) == Some(c.label@) && c.rgb == pick_chip_rgb(mode),
{
    let (en, ru, rgb): (&'static str, &'static str, [u8; 3]) = match mode {
        PickMode::Idle => return None,
        PickMode::X1 => ("Pick X1", "Выбор X1", [190, 225, 255]),
        PickMode::X2 => ("Pick X2", "Выбор X2", [190, 225, 255]),
        PickMode::Y1 => ("Pick Y1", "Выбор Y1", [200, 255, 200]),
        PickMode::Y2 => ("Pick Y2", "Выбор Y2", [200, 255, 200]),
        PickMode::Origin => ("Pick origin", "Выбор начала", [255, 230, 180]),
        PickMode::R1 => ("Pick R1", "Выбор R1", [255, 210, 160]),
        PickMode::R2 => ("Pick R2", "Выбор R2", [255, 210, 160]),
        PickMode::A1 => ("Pick A1", "Выбор A1", [200, 210, 255]),
        PickMode::A2 => ("Pick A2", "Выбор A2", [200, 210, 255]),
        PickMode::CurveColor => ("Pick curve color", "Выбор цвета кривой", [255, 210, 160]),
        PickMode::AutoTrace => ("Auto-trace pick", "Авто-трассировка", [215, 215, 255]),
    };
    let label = match lang {
        UiLanguage::En => en,
        UiLanguage::Ru => ru,
    };
    Some(ModeChip { label, rgb })
}

/// Label and colour of the pointer-mode chip: a pick in progress first, then
/// auto-placement, then the Delete, Shift and Ctrl keys, else the normal mode.
pub open spec fn cursor_chip_spec(
    mode: PickMode,
    lang: UiLanguage,
    auto_place_active: bool,
    delete_down: bool,
    shift_pressed: bool,
    ctrl_pressed: bool,
) -> (Seq<char>, [u8; 3]) {
    let en = lang == UiLanguage::En;
    if mode != PickMode::Idle {
        (pick_chip_label(mode, lang).unwrap(), pick_chip_rgb(mode))
    } else if auto_place_active {
        (if en { "Auto-place"@ } else { "Авто-расстановка"@ }, [170u8, 220u8, 255u8])
    } else if delete_down {
        (if en { "Delete point"@ } else { "Удаление точки"@ }, [255u8, 150u8, 150u8])
    } else if shift_pressed {
        (if en { "Drag"@ } else { "Перетаскивание"@ }, [190u8, 225u8, 255u8])
    } else if ctrl_pressed {
        (if en { "Zoom"@ } else { "Масштаб"@ }, [186u8, 235u8, 186u8])
    } else {
        (if en { "Normal"@ } else { "Обычный"@ }, [210u8, 210u8, 210u8])
    }
}

pub fn cursor_mode_chip(
    mode: PickMode,
    lang: UiLanguage,
    auto_place_active: bool,
    delete_down: bool,
    shift_pressed: bool,
    ctrl_pressed: bool,
) -> (r: ModeChip)
    ensures
        (r.label@, r.rgb) == cursor_chip_spec(mode, lang, auto_place_active, delete_down, shift_pressed, ctrl_pressed),
{
    match pick_mode_chip(mode, lang) {
        Some(chip) => return chip,
        None => {},
    }
    let en = lang == UiLanguage::En;
    if auto_place_active {
        ModeChip { label: if en { "Auto-place" } else { "Авто-расстановка" }, rgb: [170, 220, 255] }
    } else if delete_down {
        ModeChip { label: if en { "Delete point" } else { "Удаление точки" }, rgb: [255, 150, 150] }
    } else if shift_pressed {
        ModeChip { label: if en { "Drag" } else { "Перетаскивание" }, rgb: [190, 225, 255] }
    } else if ctrl_pressed {
        ModeChip { label: if en { "Zoom" } else { "Масштаб" }, rgb: [186, 235, 186] }
    } else {
        ModeChip { label: if en { "Normal" } else { "Обычный" }, rgb: [210, 210, 210] }
    }
}

/// Colour (red, green, blue) of a status message of each level.
pub open spec fn status_rgb_spec(level: StatusLevel) -> [u8; 3] {
    match level {
        StatusLevel::Info => [200u8, 200u8, 200u8],
        StatusLevel::Warn => [242u8, 194u8, 102u8],
        StatusLevel::Error => [240u8, 128u8, 128u8],
    }
}

pub fn status_rgb(level: StatusLevel) -> (r: [u8; 3])
    ensures
        r == status_rgb_spec(level),
{
    match level {
        StatusLevel::Info => [200, 200, 200],
        StatusLevel::Warn => [242, 194, 102],
        StatusLevel::Error => [240, 128, 128],
    }
}

pub open spec fn copy_details_label_spec(lang: UiLanguage, copied: bool) -> Seq<char> {
    match (lang, copied) {
        (UiLanguage::En, false) => "Copy details"@,
        (UiLanguage::En, true) => "Copied"@,
        (UiLanguage::Ru, false) => "Скопировать"@,
        (UiLanguage::Ru, true) => "Скопировано"@,
    }
}

/// Label of the button that copies an error message, before and after a copy.
pub fn copy_details_label(lang: UiLanguage, copied: bool) -> (r: &'static str)
    ensures
        r@ == copy_details_label_spec(lang, copied),
{
    match (lang, copied) {
        (UiLanguage::En, false) => "Copy details",
        (UiLanguage::En, true) => "Copied",
        (UiLanguage::Ru, false) => "Скопировать",
        (UiLanguage::Ru, true) => "Скопировано",
    }
}

} // verus!
