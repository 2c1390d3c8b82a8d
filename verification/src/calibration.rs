//! Calibration targets, presets and the labels shown for them.

use vstd::prelude::*;
use crate::i18n::UiLanguage;
use crate::kinds::{AngleDirection, AngleUnit, AxisUnit, ScaleKind};
use crate::text::push_str;

verus! {

/// What a click on the image currently picks.
#[derive(Debug, Clone, Copy, PartialEq, Eq, Structural)]
pub enum PickMode {
    Idle,
    X1,
    X2,
    Y1,
    Y2,
    Origin,
    R1,
    R2,
    A1,
    A2,
    CurveColor,
    AutoTrace,
}

/// A calibration value text field.
#[derive(Debug, Clone, Copy, PartialEq, Eq, Structural)]
pub enum AxisValueField {
    X1,
    X2,
    Y1,
    Y2,
    R1,
    R2,
    A1,
    A2,
}

/// What a drag on the image moves.
#[derive(Debug, Clone, Copy, PartialEq, Eq, Structural)]
pub enum DragTarget {
    CurvePoint(usize),
    CalX1,
    CalX2,
    CalY1,
    CalY2,
    CalXLine,
    CalYLine,
    PolarOrigin,
    PolarR1,
    PolarR2,
    PolarA1,
    PolarA2,
}

/// A calibration point.
#[derive(Debug, Clone, Copy, PartialEq, Eq, Structural)]
pub enum CalTarget {
    X1,
    X2,
    Y1,
    Y2,
    Origin,
    R1,
    R2,
    A1,
    A2,
}

/// Status text while a calibration point or colour is being picked.
pub open spec fn pick_mode_label_spec(mode: PickMode) -> Option<Seq<char>> {
    match mode {
        PickMode::X1 => Some("Picking X1"@),
        PickMode::X2 => Some("Picking X2"@),
        PickMode::Y1 => Some("Picking Y1"@),
        PickMode::Y2 => Some("Picking Y2"@),
        PickMode::Origin => Some("Picking origin"@),
        PickMode::R1 => Some("Picking R1"@),
        PickMode::R2 => Some("Picking R2"@),
        PickMode::A1 => Some("Picking A1"@),
        PickMode::A2 => Some("Picking A2"@),
        PickMode::CurveColor => Some("Pick curve color"@),
        PickMode::AutoTrace => Some("Auto-trace: click start point"@),
        PickMode::Idle => None,
    }
}

pub fn pick_mode_label(mode: PickMode) -> (r: Option<&'static str>)
    ensures
        r is Some <==> pick_mode_label_spec(mode) is Some,
        r matches Some(s) ==> pick_mode_label_spec(mode) == Some(s@),
{
    match mode {
        PickMode::X1 => Some("Picking X1"),
        PickMode::X2 => Some("Picking X2"),
        PickMode::Y1 => Some("Picking Y1"),
        PickMode::Y2 => Some("Picking Y2"),
        PickMode::Origin => Some("Picking origin"),
        PickMode::R1 => Some("Picking R1"),
        PickMode::R2 => Some("Picking R2"),
        PickMode::A1 => Some("Picking A1"),
        PickMode::A2 => Some("Picking A2"),
        PickMode::CurveColor => Some("Pick curve color"),
        PickMode::AutoTrace => Some("Auto-trace: click start point"),
        PickMode::Idle => None,
    }
}

/// The value field of a calibration point (the origin has none).
pub open spec fn value_field_spec(t: CalTarget) -> Option<AxisValueField> {
    match t {
        CalTarget::X1 => Some(AxisValueField::X1),
        CalTarget::X2 => Some(AxisValueField::X2),
        CalTarget::Y1 => Some(AxisValueField::Y1),
        CalTarget::Y2 => Some(AxisValueField::Y2),
        CalTarget::R1 => Some(AxisValueField::R1),
        CalTarget::R2 => Some(AxisValueField::R2),
        CalTarget::A1 => Some(AxisValueField::A1),
        CalTarget::A2 => Some(AxisValueField::A2),
        CalTarget::Origin => None,
    }
}

/// The calibration point a pick mode picks.
pub open spec fn target_of_pick_mode(mode: PickMode) -> Option<CalTarget> {
    match mode {
        PickMode::X1 => Some(CalTarget::X1),
        PickMode::X2 => Some(CalTarget::X2),
        PickMode::Y1 => Some(CalTarget::Y1),
        PickMode::Y2 => Some(CalTarget::Y2),
        PickMode::Origin => Some(CalTarget::Origin),
        PickMode::R1 => Some(CalTarget::R1),
        PickMode::R2 => Some(CalTarget::R2),
        PickMode::A1 => Some(CalTarget::A1),
        PickMode::A2 => Some(CalTarget::A2),
        _ => None,
    }
}

/// The calibration point a drag moves.
pub open spec fn target_of_drag(target: DragTarget) -> Option<CalTarget> {
    match target {
        DragTarget::CalX1 => Some(CalTarget::X1),
        DragTarget::CalX2 => Some(CalTarget::X2),
        DragTarget::CalY1 => Some(CalTarget::Y1),
        DragTarget::CalY2 => Some(CalTarget::Y2),
        DragTarget::PolarOrigin => Some(CalTarget::Origin),
        DragTarget::PolarR1 => Some(CalTarget::R1),
        DragTarget::PolarR2 => Some(CalTarget::R2),
        DragTarget::PolarA1 => Some(CalTarget::A1),
        DragTarget::PolarA2 => Some(CalTarget::A2),
        DragTarget::CalXLine | DragTarget::CalYLine | DragTarget::CurvePoint(_) => None,
    }
}

pub open spec fn cal_target_label_spec(t: CalTarget) -> Seq<char> {
    match t {
        CalTarget::X1 => "X1"@,
        CalTarget::X2 => "X2"@,
        CalTarget::Y1 => "Y1"@,
        CalTarget::Y2 => "Y2"@,
        CalTarget::Origin => "Origin"@,
        CalTarget::R1 => "R1"@,
        CalTarget::R2 => "R2"@,
        CalTarget::A1 => "A1"@,
        CalTarget::A2 => "A2"@,
    }
}

impl CalTarget {
    pub fn label(self) -> (r: &'static str)
        ensures
            r@ == cal_target_label_spec(self),
    {
        match self {
            CalTarget::X1 => "X1",
            CalTarget::X2 => "X2",
            CalTarget::Y1 => "Y1",
            CalTarget::Y2 => "Y2",
            CalTarget::Origin => "Origin",
            CalTarget::R1 => "R1",
            CalTarget::R2 => "R2",
            CalTarget::A1 => "A1",
            CalTarget::A2 => "A2",
        }
    }

    pub fn value_field(self) -> (r: Option<AxisValueField>)
        ensures
            r == value_field_spec(self),
    {
        match self {
            CalTarget::X1 => Some(AxisValueField::X1),
            CalTarget::X2 => Some(AxisValueField::X2),
            CalTarget::Y1 => Some(AxisValueField::Y1),
            CalTarget::Y2 => Some(AxisValueField::Y2),
            CalTarget::R1 => Some(AxisValueField::R1),
            CalTarget::R2 => Some(AxisValueField::R2),
            CalTarget::A1 => Some(AxisValueField::A1),
            CalTarget::A2 => Some(AxisValueField::A2),
            CalTarget::Origin => None,
        }
    }

    pub fn from_drag(target: DragTarget) -> (r: Option<CalTarget>)
        ensures
            r == target_of_drag(target),
    {
        match target {
            DragTarget::CalX1 => Some(CalTarget::X1),
            DragTarget::CalX2 => Some(CalTarget::X2),
            DragTarget::CalY1 => Some(CalTarget::Y1),
            DragTarget::CalY2 => Some(CalTarget::Y2),
            DragTarget::PolarOrigin => Some(CalTarget::Origin),
            DragTarget::PolarR1 => Some(CalTarget::R1),
            DragTarget::PolarR2 => Some(CalTarget::R2),
            DragTarget::PolarA1 => Some(CalTarget::A1),
            DragTarget::PolarA2 => Some(CalTarget::A2),
            DragTarget::CalXLine | DragTarget::CalYLine | DragTarget::CurvePoint(_) => None,
        }
    }

    pub fn from_pick_mode(mode: PickMode) -> (r: Option<CalTarget>)
        ensures
            r == target_of_pick_mode(mode),
    {
        match mode {
            PickMode::X1 => Some(CalTarget::X1),
            PickMode::X2 => Some(CalTarget::X2),
            PickMode::Y1 => Some(CalTarget::Y1),
            PickMode::Y2 => Some(CalTarget::Y2),
            PickMode::Origin => Some(CalTarget::Origin),
            PickMode::R1 => Some(CalTarget::R1),
            PickMode::R2 => Some(CalTarget::R2),
            PickMode::A1 => Some(CalTarget::A1),
            PickMode::A2 => Some(CalTarget::A2),
            _ => None,
        }
    }
}

/// Picking a calibration point and dragging its handle address the same
/// target, the target's label names the pick, and every target but the
/// origin has a value field.
pub proof fn lemma_pick_and_drag_agree(t: CalTarget)
    ensures
        exists|m: PickMode| target_of_pick_mode(m) == Some(t),
        exists|d: DragTarget| target_of_drag(d) == Some(t),
        value_field_spec(t) is None <==> t == CalTarget::Origin,
{
    match t {
        CalTarget::X1 => {
            assert(target_of_pick_mode(PickMode::X1) == Some(t));
            assert(target_of_drag(DragTarget::CalX1) == Some(t));
        },
        CalTarget::X2 => {
            assert(target_of_pick_mode(PickMode::X2) == Some(t));
            assert(target_of_drag(DragTarget::CalX2) == Some(t));
        },
        CalTarget::Y1 => {
            assert(target_of_pick_mode(PickMode::Y1) == Some(t));
            assert(target_of_drag(DragTarget::CalY1) == Some(t));
        },
        CalTarget::Y2 => {
            assert(target_of_pick_mode(PickMode::Y2) == Some(t));
            assert(target_of_drag(DragTarget::CalY2) == Some(t));
        },
        CalTarget::Origin => {
            assert(target_of_pick_mode(PickMode::Origin) == Some(t));
            assert(target_of_drag(DragTarget::PolarOrigin) == Some(t));
        },
        CalTarget::R1 => {
            assert(target_of_pick_mode(PickMode::R1) == Some(t));
            assert(target_of_drag(DragTarget::PolarR1) == Some(t));
        },
        CalTarget::R2 => {
            assert(target_of_pick_mode(PickMode::R2) == Some(t));
            assert(target_of_drag(DragTarget::PolarR2) == Some(t));
        },
        CalTarget::A1 => {
            assert(target_of_pick_mode(PickMode::A1) == Some(t));
            assert(target_of_drag(DragTarget::PolarA1) == Some(t));
        },
        CalTarget::A2 => {
            assert(target_of_pick_mode(PickMode::A2) == Some(t));
            assert(target_of_drag(DragTarget::PolarA2) == Some(t));
        },
    }
}

/// Name of an axis unit in the interface.
pub open spec fn axis_unit_label_spec(lang: UiLanguage, v: AxisUnit) -> Seq<char> {
    match (lang, v) {
        (UiLanguage::En, AxisUnit::Float) => "Float"@,
        (UiLanguage::En, AxisUnit::DateTime) => "DateTime"@,
        (UiLanguage::Ru, AxisUnit::Float) => "Число"@,
        (UiLanguage::Ru, AxisUnit::DateTime) => "Дата/время"@,
    }
}

/// Name of an axis scale in the interface.
pub open spec fn scale_kind_label_spec(lang: UiLanguage, v: ScaleKind) -> Seq<char> {
    match (lang, v) {
        (UiLanguage::En, ScaleKind::Linear) => "Linear"@,
        (UiLanguage::En, ScaleKind::Log10) => "Log10"@,
        (UiLanguage::Ru, ScaleKind::Linear) => "Линейная"@,
        (UiLanguage::Ru, ScaleKind::Log10) => "Лог10"@,
    }
}

/// Name of an angle unit in the interface.
pub open spec fn angle_unit_label_spec(lang: UiLanguage, v: AngleUnit) -> Seq<char> {
    match (lang, v) {
        (UiLanguage::En, AngleUnit::Degrees) => "Degrees"@,
        (UiLanguage::En, AngleUnit::Radians) => "Radians"@,
        (UiLanguage::Ru, AngleUnit::Degrees) => "Градусы"@,
        (UiLanguage::Ru, AngleUnit::Radians) => "Радианы"@,
    }
}

/// Name of an angle direction in the interface.
pub open spec fn angle_direction_label_spec(lang: UiLanguage, v: AngleDirection) -> Seq<char> {
    match (lang, v) {
        (UiLanguage::En, AngleDirection::Ccw) => "CCW"@,
        (UiLanguage::En, AngleDirection::Cw) => "CW"@,
        (UiLanguage::Ru, AngleDirection::Ccw) => "Против часовой"@,
        (UiLanguage::Ru, AngleDirection::Cw) => "По часовой"@,
    }
}

pub fn axis_unit_label(lang: UiLanguage, unit: AxisUnit) -> (r: &'static str)
    ensures
        r@ == axis_unit_label_spec(lang, unit),
{
    match (lang, unit) {
        (UiLanguage::En, AxisUnit::Float) => "Float",
        (UiLanguage::En, AxisUnit::DateTime) => "DateTime",
        (UiLanguage::Ru, AxisUnit::Float) => "Число",
        (UiLanguage::Ru, AxisUnit::DateTime) => "Дата/время",
    }
}

pub fn scale_kind_label(lang: UiLanguage, scale: ScaleKind) -> (r: &'static str)
    ensures
        r@ == scale_kind_label_spec(lang, scale),
{
    match (lang, scale) {
        (UiLanguage::En, ScaleKind::Linear) => "Linear",
        (UiLanguage::En, ScaleKind::Log10) => "Log10",
        (UiLanguage::Ru, ScaleKind::Linear) => "Линейная",
        (UiLanguage::Ru, ScaleKind::Log10) => "Лог10",
    }
}

pub fn angle_unit_label(lang: UiLanguage, unit: AngleUnit) -> (r: &'static str)
    ensures
        r@ == angle_unit_label_spec(lang, unit),
{
    match (lang, unit) {
        (UiLanguage::En, AngleUnit::Degrees) => "Degrees",
        (UiLanguage::En, AngleUnit::Radians) => "Radians",
        (UiLanguage::Ru, AngleUnit::Degrees) => "Градусы",
        (UiLanguage::Ru, AngleUnit::Radians) => "Радианы",
    }
}

pub fn angle_direction_label(lang: UiLanguage, direction: AngleDirection) -> (r: &'static str)
    ensures
        r@ == angle_direction_label_spec(lang, direction),
{
    match (lang, direction) {
        (UiLanguage::En, AngleDirection::Ccw) => "CCW",
        (UiLanguage::En, AngleDirection::Cw) => "CW",
        (UiLanguage::Ru, AngleDirection::Ccw) => "Против часовой",
        (UiLanguage::Ru, AngleDirection::Cw) => "По часовой",
    }
}

/// Icons of the user interface.
#[derive(Clone, Copy, Debug, Eq, PartialEq, Structural)]
pub enum Icon {
    Menu,
    Stats,
    Info,
    Filters,
    SideToggle,
    RotateCcw,
    RotateCw,
    FlipH,
    FlipV,
    Fit,
    ResetView,
    Clear,
    Undo,
    ExportCsv,
    ExportJson,
    ExportRon,
    ExportXlsx,
    PickPoint,
    AutoPlace,
    AutoTrace,
    PickColor,
    DeletePoint,
    Pan,
    Zoom,
    PresetUnit,
    PresetPixels,
    Close,
    OpenImage,
    PasteImage,
    LoadProject,
    SaveProject,
}

/// File of an icon among the Tabler SVG icons bundled with the application.
pub open spec fn icon_file_spec(icon: Icon) -> Seq<char> {
    match icon {
        Icon::Menu => "menu-2.svg"@,
        Icon::Stats => "chart-dots.svg"@,
        Icon::Info => "info-circle.svg"@,
        Icon::Filters => "adjustments-horizontal.svg"@,
        Icon::SideToggle => "arrows-horizontal.svg"@,
        Icon::RotateCcw => "rotate-2.svg"@,
        Icon::RotateCw => "rotate-clockwise-2.svg"@,
        Icon::FlipH => "flip-horizontal.svg"@,
        Icon::FlipV => "flip-vertical.svg"@,
        Icon::Fit => "maximize.svg"@,
        Icon::ResetView => "zoom-reset.svg"@,
        Icon::Clear => "trash.svg"@,
        Icon::Undo => "arrow-back-up.svg"@,
        Icon::ExportCsv => "file-type-csv.svg"@,
        Icon::ExportJson => "braces.svg"@,
        Icon::ExportRon => "file-code.svg"@,
        Icon::ExportXlsx => "file-type-xls.svg"@,
        Icon::PickPoint => "crosshair.svg"@,
        Icon::AutoPlace => "point.svg"@,
        Icon::AutoTrace => "route-2.svg"@,
        Icon::PickColor => "color-picker.svg"@,
        Icon::DeletePoint => "trash.svg"@,
        Icon::Pan => "hand-move.svg"@,
        Icon::Zoom => "zoom-in.svg"@,
        Icon::PresetUnit => "ruler-measure.svg"@,
        Icon::PresetPixels => "ruler-2.svg"@,
        Icon::Close => "x.svg"@,
        Icon::OpenImage => "photo.svg"@,
        Icon::PasteImage => "clipboard.svg"@,
        Icon::LoadProject => "folder-open.svg"@,
        Icon::SaveProject => "device-floppy.svg"@,
    }
}

impl Icon {
    /// File name of the icon's image under the bundled Tabler icon set.
    pub fn asset_file(self) -> (r: &'static str)
        ensures
            r@ == icon_file_spec(self),
    {
        match self {
            Icon::Menu => "menu-2.svg",
            Icon::Stats => "chart-dots.svg",
            Icon::Info => "info-circle.svg",
            Icon::Filters => "adjustments-horizontal.svg",
            Icon::SideToggle => "arrows-horizontal.svg",
            Icon::RotateCcw => "rotate-2.svg",
            Icon::RotateCw => "rotate-clockwise-2.svg",
            Icon::FlipH => "flip-horizontal.svg",
            Icon::FlipV => "flip-vertical.svg",
            Icon::Fit => "maximize.svg",
            Icon::ResetView => "zoom-reset.svg",
            Icon::Clear => "trash.svg",
            Icon::Undo => "arrow-back-up.svg",
            Icon::ExportCsv => "file-type-csv.svg",
            Icon::ExportJson => "braces.svg",
            Icon::ExportRon => "file-code.svg",
            Icon::ExportXlsx => "file-type-xls.svg",
            Icon::PickPoint => "crosshair.svg",
            Icon::AutoPlace => "point.svg",
            Icon::AutoTrace => "route-2.svg",
            Icon::PickColor => "color-picker.svg",
            Icon::DeletePoint => "trash.svg",
            Icon::Pan => "hand-move.svg",
            Icon::Zoom => "zoom-in.svg",
            Icon::PresetUnit => "ruler-measure.svg",
            Icon::PresetPixels => "ruler-2.svg",
            Icon::Close => "x.svg",
            Icon::OpenImage => "photo.svg",
            Icon::PasteImage => "clipboard.svg",
            Icon::LoadProject => "folder-open.svg",
            Icon::SaveProject => "device-floppy.svg",
        }
    }
}

/// Values a quadrant preset sets on the axes.
#[derive(Debug, Clone, Copy, PartialEq, Eq, Structural)]
pub enum CalibrationPresetKind {
    Unit,
    Pixels,
}

pub open spec fn preset_label_spec(lang: UiLanguage, k: CalibrationPresetKind) -> Seq<char> {
    match (lang, k) {
        (UiLanguage::En, CalibrationPresetKind::Unit) => "Unit"@,
        (UiLanguage::En, CalibrationPresetKind::Pixels) => "Pixels"@,
        (UiLanguage::Ru, CalibrationPresetKind::Unit) => "Единицы"@,
        (UiLanguage::Ru, CalibrationPresetKind::Pixels) => "Пиксели"@,
    }
}

pub open spec fn preset_hover_spec(lang: UiLanguage, k: CalibrationPresetKind) -> Seq<char> {
    match (lang, k) {
        (UiLanguage::En, CalibrationPresetKind::Unit) => "Quadrant preset (unit): set axes to 0..1 (signed)."@,
        (UiLanguage::En, CalibrationPresetKind::Pixels) => "Quadrant preset (px): set axes to 0..size px (signed)."@,
        (UiLanguage::Ru, CalibrationPresetKind::Unit) => "Пресет квадранта (единицы): задать оси как 0..1 (со знаком)."@,
        (UiLanguage::Ru, CalibrationPresetKind::Pixels) => "Пресет квадранта (px): задать оси как 0..размер px (со знаком)."@,
    }
}

impl CalibrationPresetKind {
    pub fn label(self, lang: UiLanguage) -> (r: &'static str)
        ensures
            r@ == preset_label_spec(lang, self),
    {
        match (lang, self) {
            (UiLanguage::En, CalibrationPresetKind::Unit) => "Unit",
            (UiLanguage::En, CalibrationPresetKind::Pixels) => "Pixels",
            (UiLanguage::Ru, CalibrationPresetKind::Unit) => "Единицы",
            (UiLanguage::Ru, CalibrationPresetKind::Pixels) => "Пиксели",
        }
    }

    pub fn icon(self) -> (r: Icon)
        ensures
            r == match self {
                CalibrationPresetKind::Unit => Icon::PresetUnit,
                CalibrationPresetKind::Pixels => Icon::PresetPixels,
            },
    {
        match self {
            CalibrationPresetKind::Unit => Icon::PresetUnit,
            CalibrationPresetKind::Pixels => Icon::PresetPixels,
        }
    }

    pub fn hover_text(self, lang: UiLanguage) -> (r: &'static str)
        ensures
            r@ == preset_hover_spec(lang, self),
    {
        match (lang, self) {
            (UiLanguage::En, CalibrationPresetKind::Unit) => "Quadrant preset (unit): set axes to 0..1 (signed).",
            (UiLanguage::En, CalibrationPresetKind::Pixels) => "Quadrant preset (px): set axes to 0..size px (signed).",
            (UiLanguage::Ru, CalibrationPresetKind::Unit) => "Пресет квадранта (единицы): задать оси как 0..1 (со знаком).",
            (UiLanguage::Ru, CalibrationPresetKind::Pixels) => "Пресет квадранта (px): задать оси как 0..размер px (со знаком).",
        }
    }
}

/// Quadrant of the plotted data relative to the axes.
#[derive(Debug, Clone, Copy, PartialEq, Eq, Structural)]
pub enum CalibrationQuadrant {
    I,
    II,
    III,
    IV,
}

pub open spec fn quadrant_label_spec(q: CalibrationQuadrant) -> Seq<char> {
    match q {
        CalibrationQuadrant::I => "I"@,
        CalibrationQuadrant::II => "II"@,
        CalibrationQuadrant::III => "III"@,
        CalibrationQuadrant::IV => "IV"@,
    }
}

pub open spec fn quadrant_hint_spec(lang: UiLanguage, q: CalibrationQuadrant) -> Seq<char> {
    match (lang, q) {
        (UiLanguage::En, CalibrationQuadrant::I) => "Axes: bottom + left (x>=0, y>=0)"@,
        (UiLanguage::En, CalibrationQuadrant::II) => "Axes: bottom + right (x<=0, y>=0)"@,
        (UiLanguage::En, CalibrationQuadrant::III) => "Axes: top + right (x<=0, y<=0)"@,
        (UiLanguage::En, CalibrationQuadrant::IV) => "Axes: top + left (x>=0, y<=0)"@,
        (UiLanguage::Ru, CalibrationQuadrant::I) => "Оси: низ + лево (x>=0, y>=0)"@,
        (UiLanguage::Ru, CalibrationQuadrant::II) => "Оси: низ + право (x<=0, y>=0)"@,
        (UiLanguage::Ru, CalibrationQuadrant::III) => "Оси: верх + право (x<=0, y<=0)"@,
        (UiLanguage::Ru, CalibrationQuadrant::IV) => "Оси: верх + лево (x>=0, y<=0)"@,
    }
}

impl CalibrationQuadrant {
    /// The four quadrants, counter-clockwise from the first.
    pub fn all() -> (r: Vec<CalibrationQuadrant>)
        ensures
            r@ == seq![
                CalibrationQuadrant::I,
                CalibrationQuadrant::II,
                CalibrationQuadrant::III,
                CalibrationQuadrant::IV,
            ],
    {
        vec![CalibrationQuadrant::I, CalibrationQuadrant::II, CalibrationQuadrant::III, CalibrationQuadrant::IV]
    }

    pub fn label(self) -> (r: &'static str)
        ensures
            r@ == quadrant_label_spec(self),
    {
        match self {
            CalibrationQuadrant::I => "I",
            CalibrationQuadrant::II => "II",
            CalibrationQuadrant::III => "III",
            CalibrationQuadrant::IV => "IV",
        }
    }

    pub fn hint(self, lang: UiLanguage) -> (r: &'static str)
        ensures
            r@ == quadrant_hint_spec(lang, self),
    {
        match (lang, self) {
            (UiLanguage::En, CalibrationQuadrant::I) => "Axes: bottom + left (x>=0, y>=0)",
            (UiLanguage::En, CalibrationQuadrant::II) => "Axes: bottom + right (x<=0, y>=0)",
            (UiLanguage::En, CalibrationQuadrant::III) => "Axes: top + right (x<=0, y<=0)",
            (UiLanguage::En, CalibrationQuadrant::IV) => "Axes: top + left (x>=0, y<=0)",
            (UiLanguage::Ru, CalibrationQuadrant::I) => "Оси: низ + лево (x>=0, y>=0)",
            (UiLanguage::Ru, CalibrationQuadrant::II) => "Оси: низ + право (x<=0, y>=0)",
            (UiLanguage::Ru, CalibrationQuadrant::III) => "Оси: верх + право (x<=0, y<=0)",
            (UiLanguage::Ru, CalibrationQuadrant::IV) => "Оси: верх + лево (x>=0, y<=0)",
        }
    }

    /// The x axis runs along the bottom (quadrants I and II).
    pub fn axis_on_bottom(self) -> (r: bool)
        ensures
            r == (self == CalibrationQuadrant::I || self == CalibrationQuadrant::II),
    {
        matches!(self, CalibrationQuadrant::I | CalibrationQuadrant::II)
    }

    /// The y axis runs along the left (quadrants I and IV).
    pub fn axis_on_left(self) -> (r: bool)
        ensures
            r == (self == CalibrationQuadrant::I || self == CalibrationQuadrant::IV),
    {
        matches!(self, CalibrationQuadrant::I | CalibrationQuadrant::IV)
    }
}

/// Where a quadrant preset puts the calibration: both axes start at the
/// image corner where they meet (`origin`); the x axis ends at the opposite
/// corner along the same edge (`x_end`), the y axis likewise (`y_end`); the
/// origin is worth 0 and the ends `x_value` and `y_value`, negative where
/// the axis runs against the image's direction. Points are pixel
/// coordinates `[x, y]`.
#[derive(Debug, Clone, Copy, PartialEq, Eq)]
pub struct PresetLayout {
    pub origin: [usize; 2],
    pub x_end: [usize; 2],
    pub y_end: [usize; 2],
    pub x_value: i128,
    pub y_value: i128,
}

/// Why a preset cannot be applied.
#[derive(Debug, Clone, Copy, PartialEq, Eq, Structural)]
pub enum PresetError {
    NoImage,
    EmptyImage,
}

pub open spec fn preset_layout_spec(
    preset: CalibrationPresetKind,
    quadrant: CalibrationQuadrant,
    width: usize,
    height: usize,
) -> PresetLayout {
    let bottom = quadrant == CalibrationQuadrant::I || quadrant == CalibrationQuadrant::II;
    let left = quadrant == CalibrationQuadrant::I || quadrant == CalibrationQuadrant::IV;
    let x_axis_y: usize = if bottom { height } else { 0 };
    let y_axis_x: usize = if left { 0 } else { width };
    let (span_x, span_y) = match preset {
        CalibrationPresetKind::Unit => (1int, 1int),
        CalibrationPresetKind::Pixels => (width as int, height as int),
    };
    PresetLayout {
        origin: [y_axis_x, x_axis_y],
        x_end: [if left { width } else { 0 }, x_axis_y],
        y_end: [y_axis_x, if bottom { 0 } else { height }],
        x_value: (if left { span_x } else { -span_x }) as i128,
        y_value: (if bottom { span_y } else { -span_y }) as i128,
    }
}

/// The calibration a quadrant preset sets for an image of `size`: an error
/// without an image or for an empty one.
pub fn preset_layout(
    preset: CalibrationPresetKind,
    quadrant: CalibrationQuadrant,
    size: Option<[usize; 2]>,
) -> (r: Result<PresetLayout, PresetError>)
    ensures
        match size {
            None => r == Err::<PresetLayout, PresetError>(PresetError::NoImage),
            Some(s) => if s[0] == 0 || s[1] == 0 {
                r == Err::<PresetLayout, PresetError>(PresetError::EmptyImage)
            } else {
                r == Ok::<PresetLayout, PresetError>(preset_layout_spec(preset, quadrant, s[0], s[1]))
            },
        },
{
    let (width, height) = match size {
        None => return Err(PresetError::NoImage),
        Some(s) => (s[0], s[1]),
    };
    if width == 0 || height == 0 {
        return Err(PresetError::EmptyImage);
    }
    let bottom = quadrant.axis_on_bottom();
    let left = quadrant.axis_on_left();
    let x_axis_y = if bottom { height } else { 0 };
    let y_axis_x = if left { 0 } else { width };
    let (span_x, span_y): (i128, i128) = match preset {
        CalibrationPresetKind::Unit => (1, 1),
        CalibrationPresetKind::Pixels => (width as i128, height as i128),
    };
    Ok(PresetLayout {
        origin: [y_axis_x, x_axis_y],
        x_end: [if left { width } else { 0 }, x_axis_y],
        y_end: [y_axis_x, if bottom { 0 } else { height }],
        x_value: if left { span_x } else { -span_x },
        y_value: if bottom { span_y } else { -span_y },
    })
}

pub open spec fn preset_error_message_spec(lang: UiLanguage, e: PresetError) -> Seq<char> {
    match (lang, e) {
        (UiLanguage::En, PresetError::NoImage) => "Load an image before applying calibration presets."@,
        (UiLanguage::Ru, PresetError::NoImage) => "Загрузите изображение перед применением пресетов калибровки."@,
        (UiLanguage::En, PresetError::EmptyImage) => "Image dimensions are invalid for presets."@,
        (UiLanguage::Ru, PresetError::EmptyImage) => "Размеры изображения некорректны для пресетов."@,
    }
}

/// Status shown when a preset cannot be applied.
pub fn preset_error_message(lang: UiLanguage, e: PresetError) -> (r: &'static str)
    ensures
        r@ == preset_error_message_spec(lang, e),
{
    match (lang, e) {
        (UiLanguage::En, PresetError::NoImage) => "Load an image before applying calibration presets.",
        (UiLanguage::Ru, PresetError::NoImage) => "Загрузите изображение перед применением пресетов калибровки.",
        (UiLanguage::En, PresetError::EmptyImage) => "Image dimensions are invalid for presets.",
        (UiLanguage::Ru, PresetError::EmptyImage) => "Размеры изображения некорректны для пресетов.",
    }
}

pub open spec fn preset_applied_message_spec(
    lang: UiLanguage,
    preset: CalibrationPresetKind,
    quadrant: CalibrationQuadrant,
) -> Seq<char> {
    let head = match lang {
        UiLanguage::En => "Applied calibration preset: quadrant "@,
        UiLanguage::Ru => "Применён пресет калибровки: квадрант "@,
    };
    head + quadrant_label_spec(quadrant) + " ("@ + preset_label_spec(lang, preset) + ")"@
}

/// Status shown once a preset is applied.
pub fn preset_applied_message(lang: UiLanguage, preset: CalibrationPresetKind, quadrant: CalibrationQuadrant) -> (r:
    String)
    ensures
        r@ == preset_applied_message_spec(lang, preset, quadrant),
{
    let mut s = String::new();
    match lang {
        UiLanguage::En => push_str(&mut s, "Applied calibration preset: quadrant "),
        UiLanguage::Ru => push_str(&mut s, "Применён пресет калибровки: квадрант "),
    }
    push_str(&mut s, quadrant.label());
    push_str(&mut s, " (");
    push_str(&mut s, preset.label(lang));
    push_str(&mut s, ")");
    s
}

/// The two axes of a polar calibration.
#[derive(Debug, Clone, Copy, PartialEq, Eq, Structural)]
pub enum PolarAxisKind {
    Radius,
    Angle,
}

pub open spec fn polar_axis_label_spec(lang: UiLanguage, k: PolarAxisKind) -> Seq<char> {
    match (lang, k) {
        (UiLanguage::En, PolarAxisKind::Radius) => "Radius"@,
        (UiLanguage::En, PolarAxisKind::Angle) => "Angle"@,
        (UiLanguage::Ru, PolarAxisKind::Radius) => "Радиус"@,
        (UiLanguage::Ru, PolarAxisKind::Angle) => "Угол"@,
    }
}

impl PolarAxisKind {
    pub fn label(self, lang: UiLanguage) -> (r: &'static str)
        ensures
            r@ == polar_axis_label_spec(lang, self),
    {
        match (lang, self) {
            (UiLanguage::En, PolarAxisKind::Radius) => "Radius",
            (UiLanguage::En, PolarAxisKind::Angle) => "Angle",
            (UiLanguage::Ru, PolarAxisKind::Radius) => "Радиус",
            (UiLanguage::Ru, PolarAxisKind::Angle) => "Угол",
        }
    }

    pub fn p1_label(self) -> (r: &'static str)
        ensures
            r@ == match self {
                PolarAxisKind::Radius => "R1"@,
                PolarAxisKind::Angle => "A1"@,
            },
    {
        match self {
            PolarAxisKind::Radius => "R1",
            PolarAxisKind::Angle => "A1",
        }
    }

    pub fn p2_label(self) -> (r: &'static str)
        ensures
            r@ == match self {
                PolarAxisKind::Radius => "R2"@,
                PolarAxisKind::Angle => "A2"@,
            },
    {
        match self {
            PolarAxisKind::Radius => "R2",
            PolarAxisKind::Angle => "A2",
        }
    }
}

/// How a calibration point was snapped.
#[derive(Debug, Clone, Copy, PartialEq, Eq, Structural)]
pub enum CalibrationSnapKind {
    NoSnap,
    End,
    Intersection,
    Extension,
    VerticalHorizontal,
    Angle15,
}

/// A rule by which a calibration point can snap.
#[derive(Debug, Clone, Copy, PartialEq, Eq, Structural)]
pub enum SnapCriterion {
    End,
    Intersection,
    Extension,
    VerticalHorizontal,
}

/// The set of snapping rules that found a candidate, one bit per rule.
#[derive(Debug, Clone, Copy)]
pub struct SnapCriteriaHits(u8);

/// Bit of a snapping rule.
pub open spec fn criterion_bit(c: SnapCriterion) -> u8 {
    match c {
        SnapCriterion::End => 1,
        SnapCriterion::Intersection => 2,
        SnapCriterion::Extension => 4,
        SnapCriterion::VerticalHorizontal => 8,
    }
}

impl SnapCriteriaHits {
    /// Only the four rule bits are ever set.
    #[verifier::type_invariant]
    spec fn only_rule_bits(self) -> bool {
        self.0 < 16
    }

    /// The rules recorded so far, as bits.
    pub closed spec fn bits(self) -> u8 {
        self.0
    }

    /// Whether the rule has been recorded.
    pub open spec fn has(self, c: SnapCriterion) -> bool {
        self.bits() & criterion_bit(c) != 0
    }

    pub fn bit(criterion: SnapCriterion) -> (r: u8)
        ensures
            r == criterion_bit(criterion),
    {
        match criterion {
            SnapCriterion::End => 1,
            SnapCriterion::Intersection => 2,
            SnapCriterion::Extension => 4,
            SnapCriterion::VerticalHorizontal => 8,
        }
    }

    /// Records that `criterion` found a candidate; the other rules keep their state.
    pub fn mark(&mut self, criterion: SnapCriterion)
        ensures
            final(self).has(criterion),
            forall|c: SnapCriterion| c != criterion ==> (final(self).has(c) == old(self).has(c)),
    {
        proof {
            use_type_invariant(&*self);
        }
        let b = Self::bit(criterion);
        let x = self.0;
        proof {
            lemma_mark_bits(x, criterion);
        }
        self.0 = x | b;
    }

    /// Whether any rule other than `criterion` has been recorded.
    pub fn has_other_than(self, criterion: SnapCriterion) -> (r: bool)
        ensures
            r == exists|c: SnapCriterion| c != criterion && #[trigger] self.has(c),
    {
        proof {
            use_type_invariant(&self);
        }
        let b = Self::bit(criterion);
        let x = self.0;
        proof {
            lemma_other_bits(x, criterion);
            if x & !b != 0 {
                let c = choose|c: SnapCriterion| c != criterion && (x & #[trigger] criterion_bit(c) != 0);
                assert(self.has(c));
            } else {
                assert forall|c: SnapCriterion| c != criterion implies !#[trigger] self.has(c) by {
                    if self.has(c) {
                        assert(x & criterion_bit(c) != 0);
                    }
                }
            }
        }
        x & !b != 0
    }
}

impl Default for SnapCriteriaHits {
    fn default() -> (h: SnapCriteriaHits)
        ensures
            h.bits() == 0,
    {
        SnapCriteriaHits(0)
    }
}

proof fn lemma_mark_bits(x: u8, criterion: SnapCriterion)
    requires
        x < 16,
    ensures
        (x | criterion_bit(criterion)) < 16,
        (x | criterion_bit(criterion)) & criterion_bit(criterion) != 0,
        forall|c: SnapCriterion| c != criterion ==> (((x | criterion_bit(criterion)) & #[trigger] criterion_bit(c) != 0)
            == (x & criterion_bit(c) != 0)),
{
    assert(x < 16 ==> (x | 1u8) < 16 && (x | 2u8) < 16 && (x | 4u8) < 16 && (x | 8u8) < 16) by (bit_vector);
    assert((x | 1u8) & 1u8 != 0 && (x | 2u8) & 2u8 != 0 && (x | 4u8) & 4u8 != 0 && (x | 8u8) & 8u8 != 0) by (bit_vector);
    assert(((x | 1u8) & 2u8 != 0) == (x & 2u8 != 0) && ((x | 1u8) & 4u8 != 0) == (x & 4u8 != 0)
        && ((x | 1u8) & 8u8 != 0) == (x & 8u8 != 0)) by (bit_vector);
    assert(((x | 2u8) & 1u8 != 0) == (x & 1u8 != 0) && ((x | 2u8) & 4u8 != 0) == (x & 4u8 != 0)
        && ((x | 2u8) & 8u8 != 0) == (x & 8u8 != 0)) by (bit_vector);
    assert(((x | 4u8) & 1u8 != 0) == (x & 1u8 != 0) && ((x | 4u8) & 2u8 != 0) == (x & 2u8 != 0)
        && ((x | 4u8) & 8u8 != 0) == (x & 8u8 != 0)) by (bit_vector);
    assert(((x | 8u8) & 1u8 != 0) == (x & 1u8 != 0) && ((x | 8u8) & 2u8 != 0) == (x & 2u8 != 0)
        && ((x | 8u8) & 4u8 != 0) == (x & 4u8 != 0)) by (bit_vector);
}

proof fn lemma_other_bits(x: u8, criterion: SnapCriterion)
    requires
        x < 16,
    ensures
        (x & !criterion_bit(criterion) != 0) == exists|c: SnapCriterion| c != criterion && (x
            & #[trigger] criterion_bit(c) != 0),
{
    assert(x < 16 ==> ((x & !1u8 != 0) == (x & 2u8 != 0 || x & 4u8 != 0 || x & 8u8 != 0))) by (bit_vector);
    assert(x < 16 ==> ((x & !2u8 != 0) == (x & 1u8 != 0 || x & 4u8 != 0 || x & 8u8 != 0))) by (bit_vector);
    assert(x < 16 ==> ((x & !4u8 != 0) == (x & 1u8 != 0 || x & 2u8 != 0 || x & 8u8 != 0))) by (bit_vector);
    assert(x < 16 ==> ((x & !8u8 != 0) == (x & 1u8 != 0 || x & 2u8 != 0 || x & 4u8 != 0))) by (bit_vector);
    let e = SnapCriterion::End;
    let i = SnapCriterion::Intersection;
    let x_ = SnapCriterion::Extension;
    let v = SnapCriterion::VerticalHorizontal;
    assert(criterion_bit(e) == 1 && criterion_bit(i) == 2 && criterion_bit(x_) == 4 && criterion_bit(v) == 8);
}

/// An end of the x or y calibration segment.
#[derive(Debug, Clone, Copy, PartialEq, Eq, Structural)]
pub enum CartesianEndpointId {
    X1,
    X2,
    Y1,
    Y2,
}

/// The calibration end a snapping guide starts from.
#[derive(Debug, Clone, Copy, PartialEq, Eq, Structural)]
pub enum CalSnapEndpoint {
    X1,
    X2,
    Y1,
    Y2,
}

impl CartesianEndpointId {
    pub fn to_snap_endpoint(self) -> (r: CalSnapEndpoint)
        ensures
            r == match self {
                CartesianEndpointId::X1 => CalSnapEndpoint::X1,
                CartesianEndpointId::X2 => CalSnapEndpoint::X2,
                CartesianEndpointId::Y1 => CalSnapEndpoint::Y1,
                CartesianEndpointId::Y2 => CalSnapEndpoint::Y2,
            },
    {
        match self {
            CartesianEndpointId::X1 => CalSnapEndpoint::X1,
            CartesianEndpointId::X2 => CalSnapEndpoint::X2,
            CartesianEndpointId::Y1 => CalSnapEndpoint::Y1,
            CartesianEndpointId::Y2 => CalSnapEndpoint::Y2,
        }
    }
}

} // verus!
