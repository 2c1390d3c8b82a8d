//! User-interface language selection and the English and Russian text tables.

use vstd::prelude::*;

verus! {

/// Language of the user interface.
#[derive(Debug, Clone, Copy, PartialEq, Eq, Structural)]
pub enum UiLanguage {
    En,
    Ru,
}

/// Part of a locale tag before the first `.` (codeset) or `@` (modifier).
pub open spec fn locale_language_part(tag: Seq<char>) -> Seq<char>
    decreases tag.len(),
{
    if tag.len() == 0 || tag[0] == '.' || tag[0] == '@' {
        Seq::empty()
    } else {
        seq![tag[0]] + locale_language_part(tag.drop_first())
    }
}

/// Language named by a locale tag such as `ru_RU.UTF-8`: Russian when the
/// language part starts with `ru` in any ASCII case, none when it is empty,
/// English otherwise.
pub open spec fn locale_language(tag: Seq<char>) -> Option<UiLanguage> {
    let part = locale_language_part(tag);
    if part.len() >= 2 && (part[0] == 'r' || part[0] == 'R') && (part[1] == 'u' || part[1] == 'U') {
        Some(UiLanguage::Ru)
    } else if part.len() == 0 {
        None
    } else {
        Some(UiLanguage::En)
    }
}

proof fn lemma_language_part_step(tag: Seq<char>, i: int)
    requires
        0 <= i < tag.len(),
        forall|j: int| 0 <= j < i ==> tag[j] != '.' && tag[j] != '@',
    ensures
        locale_language_part(tag) == if tag[i] == '.' || tag[i] == '@' {
            tag.take(i)
        } else {
            tag.take(i) + locale_language_part(tag.skip(i))
        },
    decreases i,
{
    if i > 0 {
        let rest = tag.drop_first();
        assert forall|j: int| 0 <= j < i - 1 implies rest[j] != '.' && rest[j] != '@' by {
            assert(rest[j] == tag[j + 1]);
        }
        lemma_language_part_step(rest, i - 1);
        assert(rest.take(i - 1) =~= tag.take(i).drop_first());
        assert(rest.skip(i - 1) =~= tag.skip(i));
        assert(tag.take(i) =~= seq![tag[0]] + tag.take(i).drop_first());
    } else {
        assert(tag.take(0) =~= Seq::<char>::empty());
        assert(tag.skip(0) =~= tag);
    }
}

proof fn lemma_language_part_all(tag: Seq<char>)
    requires
        forall|j: int| 0 <= j < tag.len() ==> tag[j] != '.' && tag[j] != '@',
    ensures
        locale_language_part(tag) == tag,
    decreases tag.len(),
{
    if tag.len() > 0 {
        let rest = tag.drop_first();
        assert forall|j: int| 0 <= j < rest.len() implies rest[j] != '.' && rest[j] != '@' by {
            assert(rest[j] == tag[j + 1]);
        }
        lemma_language_part_all(rest);
        assert(tag =~= seq![tag[0]] + rest);
    } else {
        assert(tag =~= Seq::<char>::empty());
    }
}

impl UiLanguage {
    /// Both supported languages.
    pub fn all() -> (r: Vec<UiLanguage>)
        ensures
            r@ == seq![UiLanguage::En, UiLanguage::Ru],
    {
        vec![UiLanguage::En, UiLanguage::Ru]
    }

    /// Language of a POSIX locale tag (`LANG`, `LC_ALL`, ...).
    pub fn from_locale_tag(tag: &str) -> (r: Option<UiLanguage>)
        ensures
            r == locale_language(tag@),
    {
        let ghost s = tag@;
        let len = tag.unicode_len();
        let mut count: usize = 0;
        let mut first: char = ' ';
        let mut second: char = ' ';
        let mut stopped = false;
        for ch in it: tag.chars()
            invariant
                s == tag@,
                it.seq() == s,
                it.index() <= s.len(),
                s.len() == len,
                !stopped ==> count == it.index(),
                !stopped ==> forall|j: int| 0 <= j < it.index() ==> s[j] != '.' && s[j] != '@',
                stopped ==> count < s.len() && (s[count as int] == '.' || s[count as int] == '@')
                    && forall|j: int| 0 <= j < count ==> s[j] != '.' && s[j] != '@',
                count >= 1 ==> first == s[0],
                count >= 2 ==> second == s[1],
        {
            if !stopped {
                if ch == '.' || ch == '@' {
                    stopped = true;
                } else {
                    if count == 0 {
                        first = ch;
                    } else if count == 1 {
                        second = ch;
                    }
                    count = count + 1;
                }
            }
        }
        proof {
            if stopped {
                lemma_language_part_step(s, count as int);
            } else {
                lemma_language_part_all(s);
            }
            assert(locale_language_part(s).len() == count);
            assert(s.take(count as int).len() == count);
            if count >= 1 {
                assert(locale_language_part(s)[0] == s[0]);
            }
            if count >= 2 {
                assert(locale_language_part(s)[1] == s[1]);
            }
        }
        if count >= 2 && (first == 'r' || first == 'R') && (second == 'u' || second == 'U') {
            Some(UiLanguage::Ru)
        } else if count == 0 {
            None
        } else {
            Some(UiLanguage::En)
        }
    }
}

/// Key of a translatable user-interface text.
#[derive(Debug, Clone, Copy, PartialEq, Eq, Hash, Structural)]
pub enum TextKey {
    File,
    Appearance,
    OpenImage,
    OpenImageHover,
    PasteImage,
    PasteImageHover,
    LoadProject,
    LoadProjectHover,
    SaveProject,
    SaveProjectHover,
    HideSide,
    ShowSide,
    HideSidePanel,
    ShowSidePanel,
    SidePanelPosition,
    Left,
    Right,
    ToggleSidePanelHover,
    PointsStats,
    PointsStatsHover,
    Filters,
    FiltersHover,
    AutoTrace,
    AutoTraceHover,
    ImageInfo,
    ImageInfoHover,
    TransformsTogether,
    Rotate90Ccw,
    Rotate90Cw,
    FlipHorizontally,
    FlipVertically,
    FlipH,
    FlipV,
    Zoom,
    ZoomHover,
    ZoomPresetsHover,
    Fit,
    FitHover,
    ResetView,
    ResetViewHover,
    PanWithMiddleButton,
    MmbPan,
    MmbPanHover,
    ClearPoints,
    ClearPointsHover,
    Undo,
    UndoHover,
    LanguageSwitcherHover,
    PointInput,
    Free,
    ContrastSnap,
    CenterlineSnap,
    FreeHover,
    ContrastSnapHover,
    CenterlineSnapHover,
    FeatureSource,
    FeatureSourceHover,
    ThresholdMode,
    ThresholdModeHover,
    GradientOnly,
    FeatureScore,
    GradientOnlyHover,
    FeatureScoreHover,
    Threshold,
    ThresholdHigherHint,
    CenterlineDetectsFlat,
    CenterlineDetectsFlatHover,
    StrengthThreshold,
    StrengthThresholdHover,
    HigherOnlyWellDefined,
    BestResultsColorSample,
    PreviewCircleHint,
    ShowPointConnections,
    ShowPointConnectionsHover,
    SearchRadiusPx,
    SearchRadiusHover,
    RadiusUsedToLookForCandidates,
    CurveColor,
    CurveColorHover,
    PickFromImage,
    PickFromImageHover,
    Tolerance,
    ToleranceHover,
    SnapOverlayColor,
    SnapOverlayColorHover,
    Calibration,
    CoordinateSystem,
    CoordinateSystemHover,
    Cartesian,
    Polar,
    CoordSystemForCalibrationExport,
    Snap15,
    Snap15Hover,
    ShowCalibrationOverlay,
    ShowCalibrationOverlayHover,
    Unit,
    UnitHover,
    Scale,
    ScaleHover,
    AxisValueTypeHover,
    AxisScaleHover,
    XAxis,
    YAxis,
    XAxisCalibrationHover,
    YAxisCalibrationHover,
    Origin,
    PickOrigin,
    PickOriginHover,
    Center,
    CenterOriginHover,
    Radius,
    Angle,
    RadiusScaleHover,
    RadiusScaleChoiceHover,
    AngleUnit,
    AngleUnitHover,
    Direction,
    DirectionHover,
    MappingOk,
    MappingOkHover,
    MappingIncomplete,
    MappingIncompleteHover,
    MappingOkAxisHover,
    MappingIncompleteAxisHover,
    RadiusCalibrationHover,
    AngleCalibrationHover,
    ExportPoints,
    InterpolatedCurve,
    RawPickedPoints,
    InterpolatedCurveHover,
    RawPickedPointsHover,
    Interpolation,
    InterpolationHover,
    InterpolationAlgorithmHover,
    Samples,
    SamplesHover,
    Count,
    Auto,
    AutoSamplesHover,
    ExtraColumns,
    ExtraColumnsHover,
    IncludeDistanceToPrev,
    IncludeDistanceToPrevHover,
    IncludeAngleDeg,
    IncludeAngleDegHover,
    IncludeCartesianColumns,
    IncludeCartesianColumnsHover,
    ExportCsv,
    ExportJson,
    ExportRon,
    ExportExcel,
    AddPointsBeforeExport,
    CompleteCalibrationBeforeExportCartesian,
    CompleteCalibrationBeforeExportPolar,
    ExportToFormat,
    ImageFiltersWindow,
    FiltersAffectDisplayOnly,
    Brightness,
    Contrast,
    Gamma,
    Invert,
    ThresholdEnabled,
    Level,
    BlurRadius,
    ResetFilters,
    LoadImageToAdjustFilters,
    AutoTraceWindow,
    AutoTraceIntro,
    TraceFromClick,
    LoadImageFirst,
    CompleteCalibrationBeforeTracing,
    AutoTraceCartesianOnly,
    SelectSnapBeforeTracing,
    ClickStartPoint,
    DirectionShort,
    StepPx,
    SearchRadiusShort,
    MaxPoints,
    GapTolerance,
    GapToleranceHover,
    MinSpacingPx,
    ImageInfoWindow,
    PointsInfoWindow,
    FileSection,
    ImageSection,
    Source,
    Name,
    Path,
    Size,
    SizeUnknown,
    Modified,
    ModifiedUnknown,
    NoFileMetadataForImage,
    Dimensions,
    AspectRatio,
    AspectRatioNa,
    Pixels,
    RgbaMemoryEstimate,
    CurrentZoom,
    LoadImageToInspectMetadata,
    Points,
    Placed,
    AddPointsToSeeStats,
    CalibratedPairsNeedsAxes,
    Ranges,
    CalibrationSection,
    Geometry,
    NoData,
    CalibrateAxisToSeeNumericValues,
    XAxisLength,
    YAxisLength,
    XAxisNotSet,
    YAxisNotSet,
    AngleBetweenAxes,
    AddBothAxesToMeasureOrthogonality,
    OriginNotSet,
    RadiusPoints,
    RadiusPointsSetNeedOrigin,
    RadiusPointsNotSet,
    AngleValues,
    AnglePointsSetValuesInvalid,
    AnglePointsNotSet,
    PixelBounds,
    Span,
    NoPointsForGeometryStats,
    AverageStep,
    TotalPolylineLength,
    ProjectWarningsWindow,
    ProjectWarningsIntro,
    ContinueAnyway,
    Cancel,
    StatusPoints,
    OpenProjectDialogTitle,
    CurcatProjectFilterLabel,
    SaveProjectDialogTitle,
    DefaultProjectName,
    OpenImageDialogTitle,
    ImageFilterAll,
    PickedLabel,
    LoadingImageWithName,
    LoadingImage,
    DropHint,
    Version,
}

impl TextKey {
    /// Every key, in declaration order.
    pub fn all() -> (r: Vec<TextKey>)
        ensures
            r.len() == 243,
            forall|k: TextKey| r@.contains(k),
    {
        let r = vec![
            TextKey::File,
            TextKey::Appearance,
            TextKey::OpenImage,
            TextKey::OpenImageHover,
            TextKey::PasteImage,
            TextKey::PasteImageHover,
            TextKey::LoadProject,
            TextKey::LoadProjectHover,
            TextKey::SaveProject,
            TextKey::SaveProjectHover,
            TextKey::HideSide,
            TextKey::ShowSide,
            TextKey::HideSidePanel,
            TextKey::ShowSidePanel,
            TextKey::SidePanelPosition,
            TextKey::Left,
            TextKey::Right,
            TextKey::ToggleSidePanelHover,
            TextKey::PointsStats,
            TextKey::PointsStatsHover,
            TextKey::Filters,
            TextKey::FiltersHover,
            TextKey::AutoTrace,
            TextKey::AutoTraceHover,
            TextKey::ImageInfo,
            TextKey::ImageInfoHover,
            TextKey::TransformsTogether,
            TextKey::Rotate90Ccw,
            TextKey::Rotate90Cw,
            TextKey::FlipHorizontally,
            TextKey::FlipVertically,
            TextKey::FlipH,
            TextKey::FlipV,
            TextKey::Zoom,
            TextKey::ZoomHover,
            TextKey::ZoomPresetsHover,
            TextKey::Fit,
            TextKey::FitHover,
            TextKey::ResetView,
            TextKey::ResetViewHover,
            TextKey::PanWithMiddleButton,
            TextKey::MmbPan,
            TextKey::MmbPanHover,
            TextKey::ClearPoints,
            TextKey::ClearPointsHover,
            TextKey::Undo,
            TextKey::UndoHover,
            TextKey::LanguageSwitcherHover,
            TextKey::PointInput,
            TextKey::Free,
            TextKey::ContrastSnap,
            TextKey::CenterlineSnap,
            TextKey::FreeHover,
            TextKey::ContrastSnapHover,
            TextKey::CenterlineSnapHover,
            TextKey::FeatureSource,
            TextKey::FeatureSourceHover,
            TextKey::ThresholdMode,
            TextKey::ThresholdModeHover,
            TextKey::GradientOnly,
            TextKey::FeatureScore,
            TextKey::GradientOnlyHover,
            TextKey::FeatureScoreHover,
            TextKey::Threshold,
            TextKey::ThresholdHigherHint,
            TextKey::CenterlineDetectsFlat,
            TextKey::CenterlineDetectsFlatHover,
            TextKey::StrengthThreshold,
            TextKey::StrengthThresholdHover,
            TextKey::HigherOnlyWellDefined,
            TextKey::BestResultsColorSample,
            TextKey::PreviewCircleHint,
            TextKey::ShowPointConnections,
            TextKey::ShowPointConnectionsHover,
            TextKey::SearchRadiusPx,
            TextKey::SearchRadiusHover,
            TextKey::RadiusUsedToLookForCandidates,
            TextKey::CurveColor,
            TextKey::CurveColorHover,
            TextKey::PickFromImage,
            TextKey::PickFromImageHover,
            TextKey::Tolerance,
            TextKey::ToleranceHover,
            TextKey::SnapOverlayColor,
            TextKey::SnapOverlayColorHover,
            TextKey::Calibration,
            TextKey::CoordinateSystem,
            TextKey::CoordinateSystemHover,
            TextKey::Cartesian,
            TextKey::Polar,
            TextKey::CoordSystemForCalibrationExport,
            TextKey::Snap15,
            TextKey::Snap15Hover,
            TextKey::ShowCalibrationOverlay,
            TextKey::ShowCalibrationOverlayHover,
            TextKey::Unit,
            TextKey::UnitHover,
            TextKey::Scale,
            TextKey::ScaleHover,
            TextKey::AxisValueTypeHover,
            TextKey::AxisScaleHover,
            TextKey::XAxis,
            TextKey::YAxis,
            TextKey::XAxisCalibrationHover,
            TextKey::YAxisCalibrationHover,
            TextKey::Origin,
            TextKey::PickOrigin,
            TextKey::PickOriginHover,
            TextKey::Center,
            TextKey::CenterOriginHover,
            TextKey::Radius,
            TextKey::Angle,
            TextKey::RadiusScaleHover,
            TextKey::RadiusScaleChoiceHover,
            TextKey::AngleUnit,
            TextKey::AngleUnitHover,
            TextKey::Direction,
            TextKey::DirectionHover,
            TextKey::MappingOk,
            TextKey::MappingOkHover,
            TextKey::MappingIncomplete,
            TextKey::MappingIncompleteHover,
            TextKey::MappingOkAxisHover,
            TextKey::MappingIncompleteAxisHover,
            TextKey::RadiusCalibrationHover,
            TextKey::AngleCalibrationHover,
            TextKey::ExportPoints,
            TextKey::InterpolatedCurve,
            TextKey::RawPickedPoints,
            TextKey::InterpolatedCurveHover,
            TextKey::RawPickedPointsHover,
            TextKey::Interpolation,
            TextKey::InterpolationHover,
            TextKey::InterpolationAlgorithmHover,
            TextKey::Samples,
            TextKey::SamplesHover,
            TextKey::Count,
            TextKey::Auto,
            TextKey::AutoSamplesHover,
            TextKey::ExtraColumns,
            TextKey::ExtraColumnsHover,
            TextKey::IncludeDistanceToPrev,
            TextKey::IncludeDistanceToPrevHover,
            TextKey::IncludeAngleDeg,
            TextKey::IncludeAngleDegHover,
            TextKey::IncludeCartesianColumns,
            TextKey::IncludeCartesianColumnsHover,
            TextKey::ExportCsv,
            TextKey::ExportJson,
            TextKey::ExportRon,
            TextKey::ExportExcel,
            TextKey::AddPointsBeforeExport,
            TextKey::CompleteCalibrationBeforeExportCartesian,
            TextKey::CompleteCalibrationBeforeExportPolar,
            TextKey::ExportToFormat,
            TextKey::ImageFiltersWindow,
            TextKey::FiltersAffectDisplayOnly,
            TextKey::Brightness,
            TextKey::Contrast,
            TextKey::Gamma,
            TextKey::Invert,
            TextKey::ThresholdEnabled,
            TextKey::Level,
            TextKey::BlurRadius,
            TextKey::ResetFilters,
            TextKey::LoadImageToAdjustFilters,
            TextKey::AutoTraceWindow,
            TextKey::AutoTraceIntro,
            TextKey::TraceFromClick,
            TextKey::LoadImageFirst,
            TextKey::CompleteCalibrationBeforeTracing,
            TextKey::AutoTraceCartesianOnly,
            TextKey::SelectSnapBeforeTracing,
            TextKey::ClickStartPoint,
            TextKey::DirectionShort,
            TextKey::StepPx,
            TextKey::SearchRadiusShort,
            TextKey::MaxPoints,
            TextKey::GapTolerance,
            TextKey::GapToleranceHover,
            TextKey::MinSpacingPx,
            TextKey::ImageInfoWindow,
            TextKey::PointsInfoWindow,
            TextKey::FileSection,
            TextKey::ImageSection,
            TextKey::Source,
            TextKey::Name,
            TextKey::Path,
            TextKey::Size,
            TextKey::SizeUnknown,
            TextKey::Modified,
            TextKey::ModifiedUnknown,
            TextKey::NoFileMetadataForImage,
            TextKey::Dimensions,
            TextKey::AspectRatio,
            TextKey::AspectRatioNa,
            TextKey::Pixels,
            TextKey::RgbaMemoryEstimate,
            TextKey::CurrentZoom,
            TextKey::LoadImageToInspectMetadata,
            TextKey::Points,
            TextKey::Placed,
            TextKey::AddPointsToSeeStats,
            TextKey::CalibratedPairsNeedsAxes,
            TextKey::Ranges,
            TextKey::CalibrationSection,
            TextKey::Geometry,
            TextKey::NoData,
            TextKey::CalibrateAxisToSeeNumericValues,
            TextKey::XAxisLength,
            TextKey::YAxisLength,
            TextKey::XAxisNotSet,
            TextKey::YAxisNotSet,
            TextKey::AngleBetweenAxes,
            TextKey::AddBothAxesToMeasureOrthogonality,
            TextKey::OriginNotSet,
            TextKey::RadiusPoints,
            TextKey::RadiusPointsSetNeedOrigin,
            TextKey::RadiusPointsNotSet,
            TextKey::AngleValues,
            TextKey::AnglePointsSetValuesInvalid,
            TextKey::AnglePointsNotSet,
            TextKey::PixelBounds,
            TextKey::Span,
            TextKey::NoPointsForGeometryStats,
            TextKey::AverageStep,
            TextKey::TotalPolylineLength,
            TextKey::ProjectWarningsWindow,
            TextKey::ProjectWarningsIntro,
            TextKey::ContinueAnyway,
            TextKey::Cancel,
            TextKey::StatusPoints,
            TextKey::OpenProjectDialogTitle,
            TextKey::CurcatProjectFilterLabel,
            TextKey::SaveProjectDialogTitle,
            TextKey::DefaultProjectName,
            TextKey::OpenImageDialogTitle,
            TextKey::ImageFilterAll,
            TextKey::PickedLabel,
            TextKey::LoadingImageWithName,
            TextKey::LoadingImage,
            TextKey::DropHint,
            TextKey::Version,
        ];
        assert forall|k: TextKey| r@.contains(k) by {
            match k {
                TextKey::File => assert(r@[0] == k),
                TextKey::Appearance => assert(r@[1] == k),
                TextKey::OpenImage => assert(r@[2] == k),
                TextKey::OpenImageHover => assert(r@[3] == k),
                TextKey::PasteImage => assert(r@[4] == k),
                TextKey::PasteImageHover => assert(r@[5] == k),
                TextKey::LoadProject => assert(r@[6] == k),
                TextKey::LoadProjectHover => assert(r@[7] == k),
                TextKey::SaveProject => assert(r@[8] == k),
                TextKey::SaveProjectHover => assert(r@[9] == k),
                TextKey::HideSide => assert(r@[10] == k),
                TextKey::ShowSide => assert(r@[11] == k),
                TextKey::HideSidePanel => assert(r@[12] == k),
                TextKey::ShowSidePanel => assert(r@[13] == k),
                TextKey::SidePanelPosition => assert(r@[14] == k),
                TextKey::Left => assert(r@[15] == k),
                TextKey::Right => assert(r@[16] == k),
                TextKey::ToggleSidePanelHover => assert(r@[17] == k),
                TextKey::PointsStats => assert(r@[18] == k),
                TextKey::PointsStatsHover => assert(r@[19] == k),
                TextKey::Filters => assert(r@[20] == k),
                TextKey::FiltersHover => assert(r@[21] == k),
                TextKey::AutoTrace => assert(r@[22] == k),
                TextKey::AutoTraceHover => assert(r@[23] == k),
                TextKey::ImageInfo => assert(r@[24] == k),
                TextKey::ImageInfoHover => assert(r@[25] == k),
                TextKey::TransformsTogether => assert(r@[26] == k),
                TextKey::Rotate90Ccw => assert(r@[27] == k),
                TextKey::Rotate90Cw => assert(r@[28] == k),
                TextKey::FlipHorizontally => assert(r@[29] == k),
                TextKey::FlipVertically => assert(r@[30] == k),
                TextKey::FlipH => assert(r@[31] == k),
                TextKey::FlipV => assert(r@[32] == k),
                TextKey::Zoom => assert(r@[33] == k),
                TextKey::ZoomHover => assert(r@[34] == k),
                TextKey::ZoomPresetsHover => assert(r@[35] == k),
                TextKey::Fit => assert(r@[36] == k),
                TextKey::FitHover => assert(r@[37] == k),
                TextKey::ResetView => assert(r@[38] == k),
                TextKey::ResetViewHover => assert(r@[39] == k),
                TextKey::PanWithMiddleButton => assert(r@[40] == k),
                TextKey::MmbPan => assert(r@[41] == k),
                TextKey::MmbPanHover => assert(r@[42] == k),
                TextKey::ClearPoints => assert(r@[43] == k),
                TextKey::ClearPointsHover => assert(r@[44] == k),
                TextKey::Undo => assert(r@[45] == k),
                TextKey::UndoHover => assert(r@[46] == k),
                TextKey::LanguageSwitcherHover => assert(r@[47] == k),
                TextKey::PointInput => assert(r@[48] == k),
                TextKey::Free => assert(r@[49] == k),
                TextKey::ContrastSnap => assert(r@[50] == k),
                TextKey::CenterlineSnap => assert(r@[51] == k),
                TextKey::FreeHover => assert(r@[52] == k),
                TextKey::ContrastSnapHover => assert(r@[53] == k),
                TextKey::CenterlineSnapHover => assert(r@[54] == k),
                TextKey::FeatureSource => assert(r@[55] == k),
                TextKey::FeatureSourceHover => assert(r@[56] == k),
                TextKey::ThresholdMode => assert(r@[57] == k),
                TextKey::ThresholdModeHover => assert(r@[58] == k),
                TextKey::GradientOnly => assert(r@[59] == k),
                TextKey::FeatureScore => assert(r@[60] == k),
                TextKey::GradientOnlyHover => assert(r@[61] == k),
                TextKey::FeatureScoreHover => assert(r@[62] == k),
                TextKey::Threshold => assert(r@[63] == k),
                TextKey::ThresholdHigherHint => assert(r@[64] == k),
                TextKey::CenterlineDetectsFlat => assert(r@[65] == k),
                TextKey::CenterlineDetectsFlatHover => assert(r@[66] == k),
                TextKey::StrengthThreshold => assert(r@[67] == k),
                TextKey::StrengthThresholdHover => assert(r@[68] == k),
                TextKey::HigherOnlyWellDefined => assert(r@[69] == k),
                TextKey::BestResultsColorSample => assert(r@[70] == k),
                TextKey::PreviewCircleHint => assert(r@[71] == k),
                TextKey::ShowPointConnections => assert(r@[72] == k),
                TextKey::ShowPointConnectionsHover => assert(r@[73] == k),
                TextKey::SearchRadiusPx => assert(r@[74] == k),
                TextKey::SearchRadiusHover => assert(r@[75] == k),
                TextKey::RadiusUsedToLookForCandidates => assert(r@[76] == k),
                TextKey::CurveColor => assert(r@[77] == k),
                TextKey::CurveColorHover => assert(r@[78] == k),
                TextKey::PickFromImage => assert(r@[79] == k),
                TextKey::PickFromImageHover => assert(r@[80] == k),
                TextKey::Tolerance => assert(r@[81] == k),
                TextKey::ToleranceHover => assert(r@[82] == k),
                TextKey::SnapOverlayColor => assert(r@[83] == k),
                TextKey::SnapOverlayColorHover => assert(r@[84] == k),
                TextKey::Calibration => assert(r@[85] == k),
                TextKey::CoordinateSystem => assert(r@[86] == k),
                TextKey::CoordinateSystemHover => assert(r@[87] == k),
                TextKey::Cartesian => assert(r@[88] == k),
                TextKey::Polar => assert(r@[89] == k),
                TextKey::CoordSystemForCalibrationExport => assert(r@[90] == k),
                TextKey::Snap15 => assert(r@[91] == k),
                TextKey::Snap15Hover => assert(r@[92] == k),
                TextKey::ShowCalibrationOverlay => assert(r@[93] == k),
                TextKey::ShowCalibrationOverlayHover => assert(r@[94] == k),
                TextKey::Unit => assert(r@[95] == k),
                TextKey::UnitHover => assert(r@[96] == k),
                TextKey::Scale => assert(r@[97] == k),
                TextKey::ScaleHover => assert(r@[98] == k),
                TextKey::AxisValueTypeHover => assert(r@[99] == k),
                TextKey::AxisScaleHover => assert(r@[100] == k),
                TextKey::XAxis => assert(r@[101] == k),
                TextKey::YAxis => assert(r@[102] == k),
                TextKey::XAxisCalibrationHover => assert(r@[103] == k),
                TextKey::YAxisCalibrationHover => assert(r@[104] == k),
                TextKey::Origin => assert(r@[105] == k),
                TextKey::PickOrigin => assert(r@[106] == k),
                TextKey::PickOriginHover => assert(r@[107] == k),
                TextKey::Center => assert(r@[108] == k),
                TextKey::CenterOriginHover => assert(r@[109] == k),
                TextKey::Radius => assert(r@[110] == k),
                TextKey::Angle => assert(r@[111] == k),
                TextKey::RadiusScaleHover => assert(r@[112] == k),
                TextKey::RadiusScaleChoiceHover => assert(r@[113] == k),
                TextKey::AngleUnit => assert(r@[114] == k),
                TextKey::AngleUnitHover => assert(r@[115] == k),
                TextKey::Direction => assert(r@[116] == k),
                TextKey::DirectionHover => assert(r@[117] == k),
                TextKey::MappingOk => assert(r@[118] == k),
                TextKey::MappingOkHover => assert(r@[119] == k),
                TextKey::MappingIncomplete => assert(r@[120] == k),
                TextKey::MappingIncompleteHover => assert(r@[121] == k),
                TextKey::MappingOkAxisHover => assert(r@[122] == k),
                TextKey::MappingIncompleteAxisHover => assert(r@[123] == k),
                TextKey::RadiusCalibrationHover => assert(r@[124] == k),
                TextKey::AngleCalibrationHover => assert(r@[125] == k),
                TextKey::ExportPoints => assert(r@[126] == k),
                TextKey::InterpolatedCurve => assert(r@[127] == k),
                TextKey::RawPickedPoints => assert(r@[128] == k),
                TextKey::InterpolatedCurveHover => assert(r@[129] == k),
                TextKey::RawPickedPointsHover => assert(r@[130] == k),
                TextKey::Interpolation => assert(r@[131] == k),
                TextKey::InterpolationHover => assert(r@[132] == k),
                TextKey::InterpolationAlgorithmHover => assert(r@[133] == k),
                TextKey::Samples => assert(r@[134] == k),
                TextKey::SamplesHover => assert(r@[135] == k),
                TextKey::Count => assert(r@[136] == k),
                TextKey::Auto => assert(r@[137] == k),
                TextKey::AutoSamplesHover => assert(r@[138] == k),
                TextKey::ExtraColumns => assert(r@[139] == k),
                TextKey::ExtraColumnsHover => assert(r@[140] == k),
                TextKey::IncludeDistanceToPrev => assert(r@[141] == k),
                TextKey::IncludeDistanceToPrevHover => assert(r@[142] == k),
                TextKey::IncludeAngleDeg => assert(r@[143] == k),
                TextKey::IncludeAngleDegHover => assert(r@[144] == k),
                TextKey::IncludeCartesianColumns => assert(r@[145] == k),
                TextKey::IncludeCartesianColumnsHover => assert(r@[146] == k),
                TextKey::ExportCsv => assert(r@[147] == k),
                TextKey::ExportJson => assert(r@[148] == k),
                TextKey::ExportRon => assert(r@[149] == k),
                TextKey::ExportExcel => assert(r@[150] == k),
                TextKey::AddPointsBeforeExport => assert(r@[151] == k),
                TextKey::CompleteCalibrationBeforeExportCartesian => assert(r@[152] == k),
                TextKey::CompleteCalibrationBeforeExportPolar => assert(r@[153] == k),
                TextKey::ExportToFormat => assert(r@[154] == k),
                TextKey::ImageFiltersWindow => assert(r@[155] == k),
                TextKey::FiltersAffectDisplayOnly => assert(r@[156] == k),
                TextKey::Brightness => assert(r@[157] == k),
                TextKey::Contrast => assert(r@[158] == k),
                TextKey::Gamma => assert(r@[159] == k),
                TextKey::Invert => assert(r@[160] == k),
                TextKey::ThresholdEnabled => assert(r@[161] == k),
                TextKey::Level => assert(r@[162] == k),
                TextKey::BlurRadius => assert(r@[163] == k),
                TextKey::ResetFilters => assert(r@[164] == k),
                TextKey::LoadImageToAdjustFilters => assert(r@[165] == k),
                TextKey::AutoTraceWindow => assert(r@[166] == k),
                TextKey::AutoTraceIntro => assert(r@[167] == k),
                TextKey::TraceFromClick => assert(r@[168] == k),
                TextKey::LoadImageFirst => assert(r@[169] == k),
                TextKey::CompleteCalibrationBeforeTracing => assert(r@[170] == k),
                TextKey::AutoTraceCartesianOnly => assert(r@[171] == k),
                TextKey::SelectSnapBeforeTracing => assert(r@[172] == k),
                TextKey::ClickStartPoint => assert(r@[173] == k),
                TextKey::DirectionShort => assert(r@[174] == k),
                TextKey::StepPx => assert(r@[175] == k),
                TextKey::SearchRadiusShort => assert(r@[176] == k),
                TextKey::MaxPoints => assert(r@[177] == k),
                TextKey::GapTolerance => assert(r@[178] == k),
                TextKey::GapToleranceHover => assert(r@[179] == k),
                TextKey::MinSpacingPx => assert(r@[180] == k),
                TextKey::ImageInfoWindow => assert(r@[181] == k),
                TextKey::PointsInfoWindow => assert(r@[182] == k),
                TextKey::FileSection => assert(r@[183] == k),
                TextKey::ImageSection => assert(r@[184] == k),
                TextKey::Source => assert(r@[185] == k),
                TextKey::Name => assert(r@[186] == k),
                TextKey::Path => assert(r@[187] == k),
                TextKey::Size => assert(r@[188] == k),
                TextKey::SizeUnknown => assert(r@[189] == k),
                TextKey::Modified => assert(r@[190] == k),
                TextKey::ModifiedUnknown => assert(r@[191] == k),
                TextKey::NoFileMetadataForImage => assert(r@[192] == k),
                TextKey::Dimensions => assert(r@[193] == k),
                TextKey::AspectRatio => assert(r@[194] == k),
                TextKey::AspectRatioNa => assert(r@[195] == k),
                TextKey::Pixels => assert(r@[196] == k),
                TextKey::RgbaMemoryEstimate => assert(r@[197] == k),
                TextKey::CurrentZoom => assert(r@[198] == k),
                TextKey::LoadImageToInspectMetadata => assert(r@[199] == k),
                TextKey::Points => assert(r@[200] == k),
                TextKey::Placed => assert(r@[201] == k),
                TextKey::AddPointsToSeeStats => assert(r@[202] == k),
                TextKey::CalibratedPairsNeedsAxes => assert(r@[203] == k),
                TextKey::Ranges => assert(r@[204] == k),
                TextKey::CalibrationSection => assert(r@[205] == k),
                TextKey::Geometry => assert(r@[206] == k),
                TextKey::NoData => assert(r@[207] == k),
                TextKey::CalibrateAxisToSeeNumericValues => assert(r@[208] == k),
                TextKey::XAxisLength => assert(r@[209] == k),
                TextKey::YAxisLength => assert(r@[210] == k),
                TextKey::XAxisNotSet => assert(r@[211] == k),
                TextKey::YAxisNotSet => assert(r@[212] == k),
                TextKey::AngleBetweenAxes => assert(r@[213] == k),
                TextKey::AddBothAxesToMeasureOrthogonality => assert(r@[214] == k),
                TextKey::OriginNotSet => assert(r@[215] == k),
                TextKey::RadiusPoints => assert(r@[216] == k),
                TextKey::RadiusPointsSetNeedOrigin => assert(r@[217] == k),
                TextKey::RadiusPointsNotSet => assert(r@[218] == k),
                TextKey::AngleValues => assert(r@[219] == k),
                TextKey::AnglePointsSetValuesInvalid => assert(r@[220] == k),
                TextKey::AnglePointsNotSet => assert(r@[221] == k),
                TextKey::PixelBounds => assert(r@[222] == k),
                TextKey::Span => assert(r@[223] == k),
                TextKey::NoPointsForGeometryStats => assert(r@[224] == k),
                TextKey::AverageStep => assert(r@[225] == k),
                TextKey::TotalPolylineLength => assert(r@[226] == k),
                TextKey::ProjectWarningsWindow => assert(r@[227] == k),
                TextKey::ProjectWarningsIntro => assert(r@[228] == k),
                TextKey::ContinueAnyway => assert(r@[229] == k),
                TextKey::Cancel => assert(r@[230] == k),
                TextKey::StatusPoints => assert(r@[231] == k),
                TextKey::OpenProjectDialogTitle => assert(r@[232] == k),
                TextKey::CurcatProjectFilterLabel => assert(r@[233] == k),
                TextKey::SaveProjectDialogTitle => assert(r@[234] == k),
                TextKey::DefaultProjectName => assert(r@[235] == k),
                TextKey::OpenImageDialogTitle => assert(r@[236] == k),
                TextKey::ImageFilterAll => assert(r@[237] == k),
                TextKey::PickedLabel => assert(r@[238] == k),
                TextKey::LoadingImageWithName => assert(r@[239] == k),
                TextKey::LoadingImage => assert(r@[240] == k),
                TextKey::DropHint => assert(r@[241] == k),
                TextKey::Version => assert(r@[242] == k),
            }
        }
        r
    }
}

/// English text of a key.
pub open spec fn en_spec(key: TextKey) -> Seq<char> {
    match key {
        TextKey::File => "File"@,
        TextKey::Appearance => "Appearance"@,
        TextKey::OpenImage => "Open image…"@,
        TextKey::OpenImageHover => "Open an image (Ctrl+O). You can also drag & drop into the center."@,
        TextKey::PasteImage => "Paste image"@,
        TextKey::PasteImageHover => "Paste image from clipboard (Ctrl+V)"@,
        TextKey::LoadProject => "Load project…"@,
        TextKey::LoadProjectHover => "Load a saved Curcat project (Ctrl+Shift+P)"@,
        TextKey::SaveProject => "Save project"@,
        TextKey::SaveProjectHover => "Save the current session as a Curcat project (Ctrl+S)"@,
        TextKey::HideSide => "Hide side"@,
        TextKey::ShowSide => "Show side"@,
        TextKey::HideSidePanel => "Hide side panel"@,
        TextKey::ShowSidePanel => "Show side panel"@,
        TextKey::SidePanelPosition => "Side panel position"@,
        TextKey::Left => "Left"@,
        TextKey::Right => "Right"@,
        TextKey::ToggleSidePanelHover => "Toggle side panel (Ctrl+B) and set position"@,
        TextKey::PointsStats => "Points stats"@,
        TextKey::PointsStatsHover => "Show stats for picked points"@,
        TextKey::Filters => "Filters"@,
        TextKey::FiltersHover => "Show image filters (Ctrl+Shift+F)"@,
        TextKey::AutoTrace => "Auto-trace"@,
        TextKey::AutoTraceHover => "Show auto-trace controls (Ctrl+Shift+T)"@,
        TextKey::ImageInfo => "Image info"@,
        TextKey::ImageInfoHover => "Show file & image details (Ctrl+I)"@,
        TextKey::TransformsTogether => "Transforms image, points, and calibration together."@,
        TextKey::Rotate90Ccw => "Rotate 90° counter-clockwise."@,
        TextKey::Rotate90Cw => "Rotate 90° clockwise."@,
        TextKey::FlipHorizontally => "Flip horizontally."@,
        TextKey::FlipVertically => "Flip vertically."@,
        TextKey::FlipH => "Flip H"@,
        TextKey::FlipV => "Flip V"@,
        TextKey::Zoom => "Zoom:"@,
        TextKey::ZoomHover => "Choose a preset zoom level"@,
        TextKey::ZoomPresetsHover => "Zoom presets (percent)"@,
        TextKey::Fit => "Fit"@,
        TextKey::FitHover => "Fit the image into the viewport (Ctrl+F)"@,
        TextKey::ResetView => "Reset view"@,
        TextKey::ResetViewHover => "Reset zoom to 100% and pan to origin (Ctrl+R)"@,
        TextKey::PanWithMiddleButton => "Pan with middle mouse button"@,
        TextKey::MmbPan => "MMB pan"@,
        TextKey::MmbPanHover => "Enable/disable middle-button panning"@,
        TextKey::ClearPoints => "Clear points"@,
        TextKey::ClearPointsHover => "Clear all points (Ctrl+Shift+D)"@,
        TextKey::Undo => "Undo"@,
        TextKey::UndoHover => "Undo last point (Ctrl+Z)"@,
        TextKey::LanguageSwitcherHover => "UI language"@,
        TextKey::PointInput => "Point input"@,
        TextKey::Free => "Free"@,
        TextKey::ContrastSnap => "Contrast snap"@,
        TextKey::CenterlineSnap => "Centerline snap"@,
        TextKey::FreeHover => "Place points exactly where you click"@,
        TextKey::ContrastSnapHover => "Snap to the nearest high-contrast area inside the search radius"@,
        TextKey::CenterlineSnapHover => "Snap to the centerline of the color-matched curve"@,
        TextKey::FeatureSource => "Feature source"@,
        TextKey::FeatureSourceHover => "Choose what the snapper looks at when searching for a candidate"@,
        TextKey::ThresholdMode => "Threshold mode"@,
        TextKey::ThresholdModeHover => "Select how the detector decides if a pixel is strong enough"@,
        TextKey::GradientOnly => "Gradient only"@,
        TextKey::FeatureScore => "Feature score"@,
        TextKey::GradientOnlyHover => "Compare threshold against raw gradient strength"@,
        TextKey::FeatureScoreHover => "Compare threshold against combined feature score"@,
        TextKey::Threshold => "threshold"@,
        TextKey::ThresholdHigherHint => "Higher = snap only to strong candidates"@,
        TextKey::CenterlineDetectsFlat => "Centerline detects flat color interiors"@,
        TextKey::CenterlineDetectsFlatHover => "Pick the curve color to help the detector focus on the intended line"@,
        TextKey::StrengthThreshold => "Strength threshold"@,
        TextKey::StrengthThresholdHover => "Rejects weak centerline matches"@,
        TextKey::HigherOnlyWellDefined => "Higher = snap only to well-defined line centers"@,
        TextKey::BestResultsColorSample => "Best results come from sampling the curve color before snapping."@,
        TextKey::PreviewCircleHint => "The preview circle in the image shows the area that will be scanned."@,
        TextKey::ShowPointConnections => "Show point connections"@,
        TextKey::ShowPointConnectionsHover => "Show or hide the lines between picked points (not calibration lines)."@,
        TextKey::SearchRadiusPx => "Search radius (px)"@,
        TextKey::SearchRadiusHover => "Measured in image pixels; smaller values keep snapping near the cursor"@,
        TextKey::RadiusUsedToLookForCandidates => "Radius used to look for snap candidates"@,
        TextKey::CurveColor => "Curve color:"@,
        TextKey::CurveColorHover => "Target color for the curve"@,
        TextKey::PickFromImage => "Pick from image"@,
        TextKey::PickFromImageHover => "Click, then select a pixel on the image"@,
        TextKey::Tolerance => "tolerance"@,
        TextKey::ToleranceHover => "How far the pixel color may deviate from the picked color"@,
        TextKey::SnapOverlayColor => "Snap overlay color"@,
        TextKey::SnapOverlayColorHover => "Choices are derived from the image to keep the snap preview visible"@,
        TextKey::Calibration => "Calibration"@,
        TextKey::CoordinateSystem => "Coordinate system:"@,
        TextKey::CoordinateSystemHover => "Choose between Cartesian (X/Y) or Polar (angle/radius)"@,
        TextKey::Cartesian => "Cartesian"@,
        TextKey::Polar => "Polar"@,
        TextKey::CoordSystemForCalibrationExport => "Coordinate system for calibration and export"@,
        TextKey::Snap15 => "15° snap"@,
        TextKey::Snap15Hover => "Snap calibration lines to 15° steps while picking or dragging"@,
        TextKey::ShowCalibrationOverlay => "Show calibration overlay"@,
        TextKey::ShowCalibrationOverlayHover => "Show or hide calibration lines and point labels on the image"@,
        TextKey::Unit => "Unit:"@,
        TextKey::UnitHover => "Value type for the axis (Float/DateTime)"@,
        TextKey::Scale => "Scale:"@,
        TextKey::ScaleHover => "Axis scale (Linear/Log10)"@,
        TextKey::AxisValueTypeHover => "Choose the axis value type"@,
        TextKey::AxisScaleHover => "Choose the axis scale"@,
        TextKey::XAxis => "X axis"@,
        TextKey::YAxis => "Y axis"@,
        TextKey::XAxisCalibrationHover => "X axis calibration"@,
        TextKey::YAxisCalibrationHover => "Y axis calibration"@,
        TextKey::Origin => "Origin"@,
        TextKey::PickOrigin => "Pick Origin"@,
        TextKey::PickOriginHover => "Click, then pick the origin on the image"@,
        TextKey::Center => "Center"@,
        TextKey::CenterOriginHover => "Set origin to image center"@,
        TextKey::Radius => "Radius"@,
        TextKey::Angle => "Angle"@,
        TextKey::RadiusScaleHover => "Radius scale (Linear/Log10)"@,
        TextKey::RadiusScaleChoiceHover => "Choose the radius scale"@,
        TextKey::AngleUnit => "Angle unit:"@,
        TextKey::AngleUnitHover => "Units for angle values (degrees or radians)"@,
        TextKey::Direction => "Direction:"@,
        TextKey::DirectionHover => "Direction of increasing angle"@,
        TextKey::MappingOk => "Mapping: OK"@,
        TextKey::MappingOkHover => "Calibration complete — you can pick points and export"@,
        TextKey::MappingIncomplete => "Mapping: incomplete or invalid"@,
        TextKey::MappingIncompleteHover => "Provide two points and valid values to calibrate"@,
        TextKey::MappingOkAxisHover => "Calibration complete for this axis"@,
        TextKey::MappingIncompleteAxisHover => "Provide origin, two points, and valid values"@,
        TextKey::RadiusCalibrationHover => "Radius calibration"@,
        TextKey::AngleCalibrationHover => "Angle calibration"@,
        TextKey::ExportPoints => "Export points"@,
        TextKey::InterpolatedCurve => "Interpolated curve"@,
        TextKey::RawPickedPoints => "Raw picked points"@,
        TextKey::InterpolatedCurveHover => "Export evenly spaced samples of the curve"@,
        TextKey::RawPickedPointsHover => "Export only the points you clicked, in order"@,
        TextKey::Interpolation => "Interpolation:"@,
        TextKey::InterpolationHover => "Choose how to interpolate between control points"@,
        TextKey::InterpolationAlgorithmHover => "Algorithm used to generate the interpolated samples"@,
        TextKey::Samples => "Samples:"@,
        TextKey::SamplesHover => "Number of evenly spaced samples to export"@,
        TextKey::Count => "count"@,
        TextKey::Auto => "Auto"@,
        TextKey::AutoSamplesHover => "Automatically choose a sample count based on curve smoothness"@,
        TextKey::ExtraColumns => "Extra columns:"@,
        TextKey::ExtraColumnsHover => "Optional metrics for the picked points"@,
        TextKey::IncludeDistanceToPrev => "Include distance to previous point"@,
        TextKey::IncludeDistanceToPrevHover => "Adds a column with distances between consecutive picked points"@,
        TextKey::IncludeAngleDeg => "Include angle (deg)"@,
        TextKey::IncludeAngleDegHover => "Adds a column with angles at each interior point (first/last stay empty)"@,
        TextKey::IncludeCartesianColumns => "Include Cartesian x/y columns"@,
        TextKey::IncludeCartesianColumnsHover => "Adds x and y columns computed from angle and radius"@,
        TextKey::ExportCsv => "Export CSV…"@,
        TextKey::ExportJson => "Export JSON…"@,
        TextKey::ExportRon => "Export RON…"@,
        TextKey::ExportExcel => "Export Excel…"@,
        TextKey::AddPointsBeforeExport => "Add points before exporting to"@,
        TextKey::CompleteCalibrationBeforeExportCartesian => "Complete both axis calibrations before exporting to"@,
        TextKey::CompleteCalibrationBeforeExportPolar => "Complete origin, radius, and angle calibration before exporting to"@,
        TextKey::ExportToFormat => "Export data to"@,
        TextKey::ImageFiltersWindow => "Image filters"@,
        TextKey::FiltersAffectDisplayOnly => "Affects display and snapping only."@,
        TextKey::Brightness => "brightness"@,
        TextKey::Contrast => "contrast"@,
        TextKey::Gamma => "gamma"@,
        TextKey::Invert => "invert"@,
        TextKey::ThresholdEnabled => "threshold"@,
        TextKey::Level => "level"@,
        TextKey::BlurRadius => "blur radius"@,
        TextKey::ResetFilters => "Reset filters"@,
        TextKey::LoadImageToAdjustFilters => "Load an image to adjust filters."@,
        TextKey::AutoTraceWindow => "Auto-trace"@,
        TextKey::AutoTraceIntro => "Click once to trace a curve segment automatically."@,
        TextKey::TraceFromClick => "Trace from click"@,
        TextKey::LoadImageFirst => "Load an image first."@,
        TextKey::CompleteCalibrationBeforeTracing => "Complete calibration before tracing."@,
        TextKey::AutoTraceCartesianOnly => "Auto-trace currently supports Cartesian mode only."@,
        TextKey::SelectSnapBeforeTracing => "Select Contrast snap or Centerline snap before tracing."@,
        TextKey::ClickStartPoint => "Click, then pick a start point on the image."@,
        TextKey::DirectionShort => "Direction"@,
        TextKey::StepPx => "step (px)"@,
        TextKey::SearchRadiusShort => "search radius (px)"@,
        TextKey::MaxPoints => "max points"@,
        TextKey::GapTolerance => "gap tolerance"@,
        TextKey::GapToleranceHover => "How many missed steps to tolerate before stopping."@,
        TextKey::MinSpacingPx => "min spacing (px)"@,
        TextKey::ImageInfoWindow => "Image info"@,
        TextKey::PointsInfoWindow => "Points info"@,
        TextKey::FileSection => "File"@,
        TextKey::ImageSection => "Image"@,
        TextKey::Source => "Source"@,
        TextKey::Name => "Name"@,
        TextKey::Path => "Path"@,
        TextKey::Size => "Size"@,
        TextKey::SizeUnknown => "Unknown"@,
        TextKey::Modified => "Modified"@,
        TextKey::ModifiedUnknown => "Unknown"@,
        TextKey::NoFileMetadataForImage => "No captured file metadata for this image."@,
        TextKey::Dimensions => "Dimensions"@,
        TextKey::AspectRatio => "Aspect ratio"@,
        TextKey::AspectRatioNa => "n/a"@,
        TextKey::Pixels => "Pixels"@,
        TextKey::RgbaMemoryEstimate => "RGBA memory estimate"@,
        TextKey::CurrentZoom => "Current zoom"@,
        TextKey::LoadImageToInspectMetadata => "Load an image to inspect its metadata."@,
        TextKey::Points => "Points"@,
        TextKey::Placed => "Placed"@,
        TextKey::AddPointsToSeeStats => "Add points to see stats."@,
        TextKey::CalibratedPairsNeedsAxes => "Calibrated pairs"@,
        TextKey::Ranges => "Ranges"@,
        TextKey::CalibrationSection => "Calibration"@,
        TextKey::Geometry => "Geometry"@,
        TextKey::NoData => "no data"@,
        TextKey::CalibrateAxisToSeeNumericValues => "Calibrate this axis to see numeric values."@,
        TextKey::XAxisLength => "X axis length"@,
        TextKey::YAxisLength => "Y axis length"@,
        TextKey::XAxisNotSet => "X axis not set"@,
        TextKey::YAxisNotSet => "Y axis not set"@,
        TextKey::AngleBetweenAxes => "Angle between axes"@,
        TextKey::AddBothAxesToMeasureOrthogonality => "Add both calibration axes to measure orthogonality."@,
        TextKey::OriginNotSet => "Origin not set"@,
        TextKey::RadiusPoints => "Radius points"@,
        TextKey::RadiusPointsSetNeedOrigin => "Radius points set (origin needed for lengths)."@,
        TextKey::RadiusPointsNotSet => "Radius points not set"@,
        TextKey::AngleValues => "Angle values"@,
        TextKey::AnglePointsSetValuesInvalid => "Angle points set (values invalid)."@,
        TextKey::AnglePointsNotSet => "Angle points not set"@,
        TextKey::PixelBounds => "Pixel bounds"@,
        TextKey::Span => "Span"@,
        TextKey::NoPointsForGeometryStats => "No points for geometry stats."@,
        TextKey::AverageStep => "Average step"@,
        TextKey::TotalPolylineLength => "Total polyline length"@,
        TextKey::ProjectWarningsWindow => "Project warnings"@,
        TextKey::ProjectWarningsIntro => "Issues detected while loading the project:"@,
        TextKey::ContinueAnyway => "Continue anyway"@,
        TextKey::Cancel => "Cancel"@,
        TextKey::StatusPoints => "Points"@,
        TextKey::OpenProjectDialogTitle => "Open project"@,
        TextKey::CurcatProjectFilterLabel => "Curcat project"@,
        TextKey::SaveProjectDialogTitle => "Save project"@,
        TextKey::DefaultProjectName => "project.curcat"@,
        TextKey::OpenImageDialogTitle => "Open image"@,
        TextKey::ImageFilterAll => "All images"@,
        TextKey::PickedLabel => "Picked"@,
        TextKey::LoadingImageWithName => "Loading image"@,
        TextKey::LoadingImage => "Loading image…"@,
        TextKey::DropHint => "Drop an image here, open a file, or paste from clipboard (Ctrl+V)."@,
        TextKey::Version => "Version"@,
    }
}

/// Russian text of a key, where one exists.
pub open spec fn ru_spec(key: TextKey) -> Option<Seq<char>> {
    match key {
        TextKey::File => Some("Файл"@),
        TextKey::Appearance => Some("Вид"@),
        TextKey::OpenImage => Some("Открыть изображение…"@),
        TextKey::OpenImageHover => Some("Открыть изображение (Ctrl+O). Можно также перетащить его в центр."@),
        TextKey::PasteImage => Some("Вставить изображение"@),
        TextKey::PasteImageHover => Some("Вставить изображение из буфера обмена (Ctrl+V)"@),
        TextKey::LoadProject => Some("Загрузить проект…"@),
        TextKey::LoadProjectHover => Some("Загрузить сохранённый проект Curcat (Ctrl+Shift+P)"@),
        TextKey::SaveProject => Some("Сохранить проект"@),
        TextKey::SaveProjectHover => Some("Сохранить текущую сессию как проект Curcat (Ctrl+S)"@),
        TextKey::HideSide => Some("Скрыть панель"@),
        TextKey::ShowSide => Some("Показать панель"@),
        TextKey::HideSidePanel => Some("Скрыть боковую панель"@),
        TextKey::ShowSidePanel => Some("Показать боковую панель"@),
        TextKey::SidePanelPosition => Some("Положение боковой панели"@),
        TextKey::Left => Some("Слева"@),
        TextKey::Right => Some("Справа"@),
        TextKey::ToggleSidePanelHover => Some("Показать/скрыть боковую панель (Ctrl+B) и выбрать её сторону"@),
        TextKey::PointsStats => Some("Статистика точек"@),
        TextKey::PointsStatsHover => Some("Показать статистику выбранных точек"@),
        TextKey::Filters => Some("Фильтры"@),
        TextKey::FiltersHover => Some("Показать фильтры изображения (Ctrl+Shift+F)"@),
        TextKey::AutoTrace => Some("Авто-трассировка"@),
        TextKey::AutoTraceHover => Some("Показать настройки авто-трассировки (Ctrl+Shift+T)"@),
        TextKey::ImageInfo => Some("Инфо об изображении"@),
        TextKey::ImageInfoHover => Some("Показать информацию о файле и изображении (Ctrl+I)"@),
        TextKey::TransformsTogether => Some("Преобразует изображение, точки и калибровку вместе."@),
        TextKey::Rotate90Ccw => Some("Повернуть на 90° против часовой стрелки."@),
        TextKey::Rotate90Cw => Some("Повернуть на 90° по часовой стрелке."@),
        TextKey::FlipHorizontally => Some("Отразить по горизонтали."@),
        TextKey::FlipVertically => Some("Отразить по вертикали."@),
        TextKey::FlipH => Some("Горизонт."@),
        TextKey::FlipV => Some("Вертик."@),
        TextKey::Zoom => Some("Масштаб:"@),
        TextKey::ZoomHover => Some("Выбрать предустановленный масштаб"@),
        TextKey::ZoomPresetsHover => Some("Предустановки масштаба (в процентах)"@),
        TextKey::Fit => Some("Вписать"@),
        TextKey::FitHover => Some("Вписать изображение в область просмотра (Ctrl+F)"@),
        TextKey::ResetView => Some("Сбросить вид"@),
        TextKey::ResetViewHover => Some("Сбросить масштаб до 100% и панорамирование к началу (Ctrl+R)"@),
        TextKey::PanWithMiddleButton => Some("Панорамирование средней кнопкой мыши"@),
        TextKey::MmbPan => Some("Панорам. СКМ"@),
        TextKey::MmbPanHover => Some("Включить/выключить панорамирование средней кнопкой"@),
        TextKey::ClearPoints => Some("Очистить точки"@),
        TextKey::ClearPointsHover => Some("Очистить все точки (Ctrl+Shift+D)"@),
        TextKey::Undo => Some("Отменить"@),
        TextKey::UndoHover => Some("Отменить последнюю точку (Ctrl+Z)"@),
        TextKey::LanguageSwitcherHover => Some("Язык интерфейса"@),
        TextKey::PointInput => Some("Ввод точек"@),
        TextKey::Free => Some("Свободно"@),
        TextKey::ContrastSnap => Some("Привязка к контрасту"@),
        TextKey::CenterlineSnap => Some("Привязка к центру линии"@),
        TextKey::FreeHover => Some("Ставить точки ровно в месте клика"@),
        TextKey::ContrastSnapHover => Some("Привязка к ближайшей области высокого контраста в радиусе поиска"@),
        TextKey::CenterlineSnapHover => Some("Привязка к центральной линии цветовой кривой"@),
        TextKey::FeatureSource => Some("Источник признака"@),
        TextKey::FeatureSourceHover => Some("Что анализатор использует при поиске кандидата"@),
        TextKey::ThresholdMode => Some("Режим порога"@),
        TextKey::ThresholdModeHover => Some("Как детектор решает, что пиксель достаточно сильный"@),
        TextKey::GradientOnly => Some("Только градиент"@),
        TextKey::FeatureScore => Some("Оценка признака"@),
        TextKey::GradientOnlyHover => Some("Сравнивать порог с сырой силой градиента"@),
        TextKey::FeatureScoreHover => Some("Сравнивать порог с объединённой оценкой признаков"@),
        TextKey::Threshold => Some("порог"@),
        TextKey::ThresholdHigherHint => Some("Больше значение = привязка только к сильным кандидатам"@),
        TextKey::CenterlineDetectsFlat => Some("Поиск центральной линии распознаёт однородные цветовые области"@),
        TextKey::CenterlineDetectsFlatHover => Some("Выберите цвет кривой, чтобы детектор точнее искал нужную линию"@),
        TextKey::StrengthThreshold => Some("Порог силы"@),
        TextKey::StrengthThresholdHover => Some("Отбрасывает слабые совпадения центральной линии"@),
        TextKey::HigherOnlyWellDefined => Some("Больше значение = привязка только к хорошо выраженным центрам линий"@),
        TextKey::BestResultsColorSample => Some("Лучший результат обычно после выбора цвета кривой."@),
        TextKey::PreviewCircleHint => Some("Круг предпросмотра на изображении показывает область сканирования."@),
        TextKey::ShowPointConnections => Some("Показывать соединения точек"@),
        TextKey::ShowPointConnectionsHover => Some("Показать/скрыть линии между выбранными точками (не калибровочными)."@),
        TextKey::SearchRadiusPx => Some("Радиус поиска (px)"@),
        TextKey::SearchRadiusHover => Some("Измеряется в пикселях изображения; меньшие значения держат привязку ближе к курсору"@),
        TextKey::RadiusUsedToLookForCandidates => Some("Радиус, используемый для поиска кандидатов привязки"@),
        TextKey::CurveColor => Some("Цвет кривой:"@),
        TextKey::CurveColorHover => Some("Целевой цвет кривой"@),
        TextKey::PickFromImage => Some("Выбрать с изображения"@),
        TextKey::PickFromImageHover => Some("Нажмите и выберите пиксель на изображении"@),
        TextKey::Tolerance => Some("допуск"@),
        TextKey::ToleranceHover => Some("Насколько цвет пикселя может отличаться от выбранного"@),
        TextKey::SnapOverlayColor => Some("Цвет оверлея привязки"@),
        TextKey::SnapOverlayColorHover => Some("Варианты вычисляются из изображения для лучшей видимости предпросмотра"@),
        TextKey::Calibration => Some("Калибровка"@),
        TextKey::CoordinateSystem => Some("Система координат:"@),
        TextKey::CoordinateSystemHover => Some("Выберите декартову (X/Y) или полярную (угол/радиус) систему"@),
        TextKey::Cartesian => Some("Декартова"@),
        TextKey::Polar => Some("Полярная"@),
        TextKey::CoordSystemForCalibrationExport => Some("Система координат для калибровки и экспорта"@),
        TextKey::Snap15 => Some("Привязка 15°"@),
        TextKey::Snap15Hover => Some("Привязывать калибровочные линии к шагу 15° при выборе или перетаскивании"@),
        TextKey::ShowCalibrationOverlay => Some("Показывать калибровочный оверлей"@),
        TextKey::ShowCalibrationOverlayHover => Some("Показать или скрыть калибровочные линии и подписи точек на изображении"@),
        TextKey::Unit => Some("Тип:"@),
        TextKey::UnitHover => Some("Тип значения оси (Число/Дата-время)"@),
        TextKey::Scale => Some("Шкала:"@),
        TextKey::ScaleHover => Some("Шкала оси (Линейная/Лог10)"@),
        TextKey::AxisValueTypeHover => Some("Выбрать тип значения оси"@),
        TextKey::AxisScaleHover => Some("Выбрать шкалу оси"@),
        TextKey::XAxis => Some("Ось X"@),
        TextKey::YAxis => Some("Ось Y"@),
        TextKey::XAxisCalibrationHover => Some("Калибровка оси X"@),
        TextKey::YAxisCalibrationHover => Some("Калибровка оси Y"@),
        TextKey::Origin => Some("Начало"@),
        TextKey::PickOrigin => Some("Выбрать центр"@),
        TextKey::PickOriginHover => Some("Нажмите, затем выберите начало координат на изображении"@),
        TextKey::Center => Some("По центру"@),
        TextKey::CenterOriginHover => Some("Установить начало координат в центр изображения"@),
        TextKey::Radius => Some("Радиус"@),
        TextKey::Angle => Some("Угол"@),
        TextKey::RadiusScaleHover => Some("Шкала радиуса (Линейная/Лог10)"@),
        TextKey::RadiusScaleChoiceHover => Some("Выбрать шкалу радиуса"@),
        TextKey::AngleUnit => Some("Ед. угла:"@),
        TextKey::AngleUnitHover => Some("Единицы угла (градусы или радианы)"@),
        TextKey::Direction => Some("Направление:"@),
        TextKey::DirectionHover => Some("Направление увеличения угла"@),
        TextKey::MappingOk => Some("Преобразование: готово"@),
        TextKey::MappingOkHover => Some("Калибровка завершена — можно ставить точки и экспортировать"@),
        TextKey::MappingIncomplete => Some("Преобразование: неполное или некорректное"@),
        TextKey::MappingIncompleteHover => Some("Задайте две точки и корректные значения для калибровки"@),
        TextKey::MappingOkAxisHover => Some("Калибровка этой оси завершена"@),
        TextKey::MappingIncompleteAxisHover => Some("Укажите начало координат, две точки и корректные значения"@),
        TextKey::RadiusCalibrationHover => Some("Калибровка радиуса"@),
        TextKey::AngleCalibrationHover => Some("Калибровка угла"@),
        TextKey::ExportPoints => Some("Экспорт точек"@),
        TextKey::InterpolatedCurve => Some("Интерполированная кривая"@),
        TextKey::RawPickedPoints => Some("Исходные выбранные точки"@),
        TextKey::InterpolatedCurveHover => Some("Экспортировать равномерно распределённые семплы кривой"@),
        TextKey::RawPickedPointsHover => Some("Экспортировать только точки, которые вы поставили, по порядку"@),
        TextKey::Interpolation => Some("Интерполяция:"@),
        TextKey::InterpolationHover => Some("Выберите способ интерполяции между контрольными точками"@),
        TextKey::InterpolationAlgorithmHover => Some("Алгоритм, используемый для генерации интерполированных семплов"@),
        TextKey::Samples => Some("Семплы:"@),
        TextKey::SamplesHover => Some("Количество равномерных семплов для экспорта"@),
        TextKey::Count => Some("кол-во"@),
        TextKey::Auto => Some("Авто"@),
        TextKey::AutoSamplesHover => Some("Автоматически выбрать число семплов по гладкости кривой"@),
        TextKey::ExtraColumns => Some("Доп. колонки:"@),
        TextKey::ExtraColumnsHover => Some("Дополнительные метрики для выбранных точек"@),
        TextKey::IncludeDistanceToPrev => Some("Добавить расстояние до предыдущей точки"@),
        TextKey::IncludeDistanceToPrevHover => Some("Добавляет колонку с расстояниями между соседними выбранными точками"@),
        TextKey::IncludeAngleDeg => Some("Добавить угол (град.)"@),
        TextKey::IncludeAngleDegHover => Some("Добавляет колонку с углами в каждой внутренней точке (первая/последняя пустые)"@),
        TextKey::IncludeCartesianColumns => Some("Добавить декартовы колонки x/y"@),
        TextKey::IncludeCartesianColumnsHover => Some("Добавляет колонки x и y, вычисленные из угла и радиуса"@),
        TextKey::ExportCsv => Some("Экспорт CSV…"@),
        TextKey::ExportJson => Some("Экспорт JSON…"@),
        TextKey::ExportRon => Some("Экспорт RON…"@),
        TextKey::ExportExcel => Some("Экспорт Excel…"@),
        TextKey::AddPointsBeforeExport => Some("Добавьте точки перед экспортом в"@),
        TextKey::CompleteCalibrationBeforeExportCartesian => Some("Завершите калибровку обеих осей перед экспортом в"@),
        TextKey::CompleteCalibrationBeforeExportPolar => Some("Завершите калибровку начала, радиуса и угла перед экспортом в"@),
        TextKey::ExportToFormat => Some("Экспортировать данные в"@),
        TextKey::ImageFiltersWindow => Some("Фильтры изображения"@),
        TextKey::FiltersAffectDisplayOnly => Some("Влияет только на отображение и привязку."@),
        TextKey::Brightness => Some("яркость"@),
        TextKey::Contrast => Some("контраст"@),
        TextKey::Gamma => Some("гамма"@),
        TextKey::Invert => Some("инверсия"@),
        TextKey::ThresholdEnabled => Some("порог"@),
        TextKey::Level => Some("уровень"@),
        TextKey::BlurRadius => Some("радиус размытия"@),
        TextKey::ResetFilters => Some("Сбросить фильтры"@),
        TextKey::LoadImageToAdjustFilters => Some("Загрузите изображение, чтобы настраивать фильтры."@),
        TextKey::AutoTraceWindow => Some("Авто-трассировка"@),
        TextKey::AutoTraceIntro => Some("Кликните один раз, чтобы автоматически протрассировать сегмент кривой."@),
        TextKey::TraceFromClick => Some("Трассировать от клика"@),
        TextKey::LoadImageFirst => Some("Сначала загрузите изображение."@),
        TextKey::CompleteCalibrationBeforeTracing => Some("Завершите калибровку перед трассировкой."@),
        TextKey::AutoTraceCartesianOnly => Some("Авто-трассировка пока поддерживает только декартов режим."@),
        TextKey::SelectSnapBeforeTracing => Some("Выберите режим «Привязка по контрасту» или «Привязка к центру линии» перед трассировкой."@),
        TextKey::ClickStartPoint => Some("Нажмите и выберите стартовую точку на изображении."@),
        TextKey::DirectionShort => Some("Направление"@),
        TextKey::StepPx => Some("шаг (px)"@),
        TextKey::SearchRadiusShort => Some("радиус поиска (px)"@),
        TextKey::MaxPoints => Some("макс. точек"@),
        TextKey::GapTolerance => Some("допуск пропусков"@),
        TextKey::GapToleranceHover => Some("Сколько пропущенных шагов допускать перед остановкой."@),
        TextKey::MinSpacingPx => Some("мин. расстояние (px)"@),
        TextKey::ImageInfoWindow => Some("Информация об изображении"@),
        TextKey::PointsInfoWindow => Some("Информация о точках"@),
        TextKey::FileSection => Some("Файл"@),
        TextKey::ImageSection => Some("Изображение"@),
        TextKey::Source => Some("Источник"@),
        TextKey::Name => Some("Имя"@),
        TextKey::Path => Some("Путь"@),
        TextKey::Size => Some("Размер"@),
        TextKey::SizeUnknown => Some("Неизвестно"@),
        TextKey::Modified => Some("Изменён"@),
        TextKey::ModifiedUnknown => Some("Неизвестно"@),
        TextKey::NoFileMetadataForImage => Some("Для этого изображения нет сохранённых метаданных файла."@),
        TextKey::Dimensions => Some("Размеры"@),
        TextKey::AspectRatio => Some("Соотношение сторон"@),
        TextKey::AspectRatioNa => Some("н/д"@),
        TextKey::Pixels => Some("Пиксели"@),
        TextKey::RgbaMemoryEstimate => Some("Оценка памяти RGBA"@),
        TextKey::CurrentZoom => Some("Текущий масштаб"@),
        TextKey::LoadImageToInspectMetadata => Some("Загрузите изображение, чтобы посмотреть его метаданные."@),
        TextKey::Points => Some("Точки"@),
        TextKey::Placed => Some("Поставлено"@),
        TextKey::AddPointsToSeeStats => Some("Добавьте точки, чтобы увидеть статистику."@),
        TextKey::CalibratedPairsNeedsAxes => Some("Калиброванных пар"@),
        TextKey::Ranges => Some("Диапазоны"@),
        TextKey::CalibrationSection => Some("Калибровка"@),
        TextKey::Geometry => Some("Геометрия"@),
        TextKey::NoData => Some("нет данных"@),
        TextKey::CalibrateAxisToSeeNumericValues => Some("Откалибруйте эту ось, чтобы увидеть числовые значения."@),
        TextKey::XAxisLength => Some("Длина оси X"@),
        TextKey::YAxisLength => Some("Длина оси Y"@),
        TextKey::XAxisNotSet => Some("Ось X не задана"@),
        TextKey::YAxisNotSet => Some("Ось Y не задана"@),
        TextKey::AngleBetweenAxes => Some("Угол между осями"@),
        TextKey::AddBothAxesToMeasureOrthogonality => Some("Добавьте обе калибровочные оси для оценки ортогональности."@),
        TextKey::OriginNotSet => Some("Начало координат не задано"@),
        TextKey::RadiusPoints => Some("Точки радиуса"@),
        TextKey::RadiusPointsSetNeedOrigin => Some("Точки радиуса заданы (для длин нужно начало координат)."@),
        TextKey::RadiusPointsNotSet => Some("Точки радиуса не заданы"@),
        TextKey::AngleValues => Some("Значения угла"@),
        TextKey::AnglePointsSetValuesInvalid => Some("Точки угла заданы (значения некорректны)."@),
        TextKey::AnglePointsNotSet => Some("Точки угла не заданы"@),
        TextKey::PixelBounds => Some("Границы пикселей"@),
        TextKey::Span => Some("Размах"@),
        TextKey::NoPointsForGeometryStats => Some("Нет точек для геометрической статистики."@),
        TextKey::AverageStep => Some("Средний шаг"@),
        TextKey::TotalPolylineLength => Some("Суммарная длина ломаной"@),
        TextKey::ProjectWarningsWindow => Some("Предупреждения проекта"@),
        TextKey::ProjectWarningsIntro => Some("При загрузке проекта обнаружены проблемы:"@),
        TextKey::ContinueAnyway => Some("Продолжить"@),
        TextKey::Cancel => Some("Отмена"@),
        TextKey::StatusPoints => Some("Точек"@),
        TextKey::OpenProjectDialogTitle => Some("Открыть проект"@),
        TextKey::CurcatProjectFilterLabel => Some("Проект Curcat"@),
        TextKey::SaveProjectDialogTitle => Some("Сохранить проект"@),
        TextKey::DefaultProjectName => Some("project.curcat"@),
        TextKey::OpenImageDialogTitle => Some("Открыть изображение"@),
        TextKey::ImageFilterAll => Some("Все изображения"@),
        TextKey::PickedLabel => Some("Выбрано"@),
        TextKey::LoadingImageWithName => Some("Загрузка изображения"@),
        TextKey::LoadingImage => Some("Загрузка изображения…"@),
        TextKey::DropHint => Some("Перетащите сюда изображение, откройте файл или вставьте из буфера обмена (Ctrl+V)."@),
        TextKey::Version => Some("Версия"@),
    }
}

/// The text shown in a language: English as is, Russian with a fallback to
/// English where no translation exists.
pub open spec fn choose_spec(lang: UiLanguage, en: Seq<char>, ru: Option<Seq<char>>) -> Seq<char> {
    match lang {
        UiLanguage::En => en,
        UiLanguage::Ru => match ru {
            Some(value) => value,
            None => en,
        },
    }
}

/// The text of `key` in `lang`.
pub open spec fn text_spec(lang: UiLanguage, key: TextKey) -> Seq<char> {
    choose_spec(lang, en_spec(key), ru_spec(key))
}

/// Picks the text for a language, falling back to English when the Russian
/// text is missing.
pub fn choose_text(lang: UiLanguage, en: &'static str, ru: Option<&'static str>) -> (r: &'static str)
    ensures
        r@ == choose_spec(lang, en@, match ru { Some(v) => Some(v@), None => None }),
{
    match lang {
        UiLanguage::En => en,
        UiLanguage::Ru => match ru {
            Some(value) => value,
            None => en,
        },
    }
}

/// English text of a key.
#[verifier::rlimit(50)]
pub fn en_text(key: TextKey) -> (r: &'static str)
    ensures
        r@ == en_spec(key),
{
    match key {
        TextKey::File => "File",
        TextKey::Appearance => "Appearance",
        TextKey::OpenImage => "Open image…",
        TextKey::OpenImageHover => "Open an image (Ctrl+O). You can also drag & drop into the center.",
        TextKey::PasteImage => "Paste image",
        TextKey::PasteImageHover => "Paste image from clipboard (Ctrl+V)",
        TextKey::LoadProject => "Load project…",
        TextKey::LoadProjectHover => "Load a saved Curcat project (Ctrl+Shift+P)",
        TextKey::SaveProject => "Save project",
        TextKey::SaveProjectHover => "Save the current session as a Curcat project (Ctrl+S)",
        TextKey::HideSide => "Hide side",
        TextKey::ShowSide => "Show side",
        TextKey::HideSidePanel => "Hide side panel",
        TextKey::ShowSidePanel => "Show side panel",
        TextKey::SidePanelPosition => "Side panel position",
        TextKey::Left => "Left",
        TextKey::Right => "Right",
        TextKey::ToggleSidePanelHover => "Toggle side panel (Ctrl+B) and set position",
        TextKey::PointsStats => "Points stats",
        TextKey::PointsStatsHover => "Show stats for picked points",
        TextKey::Filters => "Filters",
        TextKey::FiltersHover => "Show image filters (Ctrl+Shift+F)",
        TextKey::AutoTrace => "Auto-trace",
        TextKey::AutoTraceHover => "Show auto-trace controls (Ctrl+Shift+T)",
        TextKey::ImageInfo => "Image info",
        TextKey::ImageInfoHover => "Show file & image details (Ctrl+I)",
        TextKey::TransformsTogether => "Transforms image, points, and calibration together.",
        TextKey::Rotate90Ccw => "Rotate 90° counter-clockwise.",
        TextKey::Rotate90Cw => "Rotate 90° clockwise.",
        TextKey::FlipHorizontally => "Flip horizontally.",
        TextKey::FlipVertically => "Flip vertically.",
        TextKey::FlipH => "Flip H",
        TextKey::FlipV => "Flip V",
        TextKey::Zoom => "Zoom:",
        TextKey::ZoomHover => "Choose a preset zoom level",
        TextKey::ZoomPresetsHover => "Zoom presets (percent)",
        TextKey::Fit => "Fit",
        TextKey::FitHover => "Fit the image into the viewport (Ctrl+F)",
        TextKey::ResetView => "Reset view",
        TextKey::ResetViewHover => "Reset zoom to 100% and pan to origin (Ctrl+R)",
        TextKey::PanWithMiddleButton => "Pan with middle mouse button",
        TextKey::MmbPan => "MMB pan",
        TextKey::MmbPanHover => "Enable/disable middle-button panning",
        TextKey::ClearPoints => "Clear points",
        TextKey::ClearPointsHover => "Clear all points (Ctrl+Shift+D)",
        TextKey::Undo => "Undo",
        TextKey::UndoHover => "Undo last point (Ctrl+Z)",
        TextKey::LanguageSwitcherHover => "UI language",
        TextKey::PointInput => "Point input",
        TextKey::Free => "Free",
        TextKey::ContrastSnap => "Contrast snap",
        TextKey::CenterlineSnap => "Centerline snap",
        TextKey::FreeHover => "Place points exactly where you click",
        TextKey::ContrastSnapHover => "Snap to the nearest high-contrast area inside the search radius",
        TextKey::CenterlineSnapHover => "Snap to the centerline of the color-matched curve",
        TextKey::FeatureSource => "Feature source",
        TextKey::FeatureSourceHover => "Choose what the snapper looks at when searching for a candidate",
        TextKey::ThresholdMode => "Threshold mode",
        TextKey::ThresholdModeHover => "Select how the detector decides if a pixel is strong enough",
        TextKey::GradientOnly => "Gradient only",
        TextKey::FeatureScore => "Feature score",
        TextKey::GradientOnlyHover => "Compare threshold against raw gradient strength",
        TextKey::FeatureScoreHover => "Compare threshold against combined feature score",
        TextKey::Threshold => "threshold",
        TextKey::ThresholdHigherHint => "Higher = snap only to strong candidates",
        TextKey::CenterlineDetectsFlat => "Centerline detects flat color interiors",
        TextKey::CenterlineDetectsFlatHover => "Pick the curve color to help the detector focus on the intended line",
        TextKey::StrengthThreshold => "Strength threshold",
        TextKey::StrengthThresholdHover => "Rejects weak centerline matches",
        TextKey::HigherOnlyWellDefined => "Higher = snap only to well-defined line centers",
        TextKey::BestResultsColorSample => "Best results come from sampling the curve color before snapping.",
        TextKey::PreviewCircleHint => "The preview circle in the image shows the area that will be scanned.",
        TextKey::ShowPointConnections => "Show point connections",
        TextKey::ShowPointConnectionsHover => "Show or hide the lines between picked points (not calibration lines).",
        TextKey::SearchRadiusPx => "Search radius (px)",
        TextKey::SearchRadiusHover => "Measured in image pixels; smaller values keep snapping near the cursor",
        TextKey::RadiusUsedToLookForCandidates => "Radius used to look for snap candidates",
        TextKey::CurveColor => "Curve color:",
        TextKey::CurveColorHover => "Target color for the curve",
        TextKey::PickFromImage => "Pick from image",
        TextKey::PickFromImageHover => "Click, then select a pixel on the image",
        TextKey::Tolerance => "tolerance",
        TextKey::ToleranceHover => "How far the pixel color may deviate from the picked color",
        TextKey::SnapOverlayColor => "Snap overlay color",
        TextKey::SnapOverlayColorHover => "Choices are derived from the image to keep the snap preview visible",
        TextKey::Calibration => "Calibration",
        TextKey::CoordinateSystem => "Coordinate system:",
        TextKey::CoordinateSystemHover => "Choose between Cartesian (X/Y) or Polar (angle/radius)",
        TextKey::Cartesian => "Cartesian",
        TextKey::Polar => "Polar",
        TextKey::CoordSystemForCalibrationExport => "Coordinate system for calibration and export",
        TextKey::Snap15 => "15° snap",
        TextKey::Snap15Hover => "Snap calibration lines to 15° steps while picking or dragging",
        TextKey::ShowCalibrationOverlay => "Show calibration overlay",
        TextKey::ShowCalibrationOverlayHover => "Show or hide calibration lines and point labels on the image",
        TextKey::Unit => "Unit:",
        TextKey::UnitHover => "Value type for the axis (Float/DateTime)",
        TextKey::Scale => "Scale:",
        TextKey::ScaleHover => "Axis scale (Linear/Log10)",
        TextKey::AxisValueTypeHover => "Choose the axis value type",
        TextKey::AxisScaleHover => "Choose the axis scale",
        TextKey::XAxis => "X axis",
        TextKey::YAxis => "Y axis",
        TextKey::XAxisCalibrationHover => "X axis calibration",
        TextKey::YAxisCalibrationHover => "Y axis calibration",
        TextKey::Origin => "Origin",
        TextKey::PickOrigin => "Pick Origin",
        TextKey::PickOriginHover => "Click, then pick the origin on the image",
        TextKey::Center => "Center",
        TextKey::CenterOriginHover => "Set origin to image center",
        TextKey::Radius => "Radius",
        TextKey::Angle => "Angle",
        TextKey::RadiusScaleHover => "Radius scale (Linear/Log10)",
        TextKey::RadiusScaleChoiceHover => "Choose the radius scale",
        TextKey::AngleUnit => "Angle unit:",
        TextKey::AngleUnitHover => "Units for angle values (degrees or radians)",
        TextKey::Direction => "Direction:",
        TextKey::DirectionHover => "Direction of increasing angle",
        TextKey::MappingOk => "Mapping: OK",
        TextKey::MappingOkHover => "Calibration complete — you can pick points and export",
        TextKey::MappingIncomplete => "Mapping: incomplete or invalid",
        TextKey::MappingIncompleteHover => "Provide two points and valid values to calibrate",
        TextKey::MappingOkAxisHover => "Calibration complete for this axis",
        TextKey::MappingIncompleteAxisHover => "Provide origin, two points, and valid values",
        TextKey::RadiusCalibrationHover => "Radius calibration",
        TextKey::AngleCalibrationHover => "Angle calibration",
        TextKey::ExportPoints => "Export points",
        TextKey::InterpolatedCurve => "Interpolated curve",
        TextKey::RawPickedPoints => "Raw picked points",
        TextKey::InterpolatedCurveHover => "Export evenly spaced samples of the curve",
        TextKey::RawPickedPointsHover => "Export only the points you clicked, in order",
        TextKey::Interpolation => "Interpolation:",
        TextKey::InterpolationHover => "Choose how to interpolate between control points",
        TextKey::InterpolationAlgorithmHover => "Algorithm used to generate the interpolated samples",
        TextKey::Samples => "Samples:",
        TextKey::SamplesHover => "Number of evenly spaced samples to export",
        TextKey::Count => "count",
        TextKey::Auto => "Auto",
        TextKey::AutoSamplesHover => "Automatically choose a sample count based on curve smoothness",
        TextKey::ExtraColumns => "Extra columns:",
        TextKey::ExtraColumnsHover => "Optional metrics for the picked points",
        TextKey::IncludeDistanceToPrev => "Include distance to previous point",
        TextKey::IncludeDistanceToPrevHover => "Adds a column with distances between consecutive picked points",
        TextKey::IncludeAngleDeg => "Include angle (deg)",
        TextKey::IncludeAngleDegHover => "Adds a column with angles at each interior point (first/last stay empty)",
        TextKey::IncludeCartesianColumns => "Include Cartesian x/y columns",
        TextKey::IncludeCartesianColumnsHover => "Adds x and y columns computed from angle and radius",
        TextKey::ExportCsv => "Export CSV…",
        TextKey::ExportJson => "Export JSON…",
        TextKey::ExportRon => "Export RON…",
        TextKey::ExportExcel => "Export Excel…",
        TextKey::AddPointsBeforeExport => "Add points before exporting to",
        TextKey::CompleteCalibrationBeforeExportCartesian => "Complete both axis calibrations before exporting to",
        TextKey::CompleteCalibrationBeforeExportPolar => "Complete origin, radius, and angle calibration before exporting to",
        TextKey::ExportToFormat => "Export data to",
        TextKey::ImageFiltersWindow => "Image filters",
        TextKey::FiltersAffectDisplayOnly => "Affects display and snapping only.",
        TextKey::Brightness => "brightness",
        TextKey::Contrast => "contrast",
        TextKey::Gamma => "gamma",
        TextKey::Invert => "invert",
        TextKey::ThresholdEnabled => "threshold",
        TextKey::Level => "level",
        TextKey::BlurRadius => "blur radius",
        TextKey::ResetFilters => "Reset filters",
        TextKey::LoadImageToAdjustFilters => "Load an image to adjust filters.",
        TextKey::AutoTraceWindow => "Auto-trace",
        TextKey::AutoTraceIntro => "Click once to trace a curve segment automatically.",
        TextKey::TraceFromClick => "Trace from click",
        TextKey::LoadImageFirst => "Load an image first.",
        TextKey::CompleteCalibrationBeforeTracing => "Complete calibration before tracing.",
        TextKey::AutoTraceCartesianOnly => "Auto-trace currently supports Cartesian mode only.",
        TextKey::SelectSnapBeforeTracing => "Select Contrast snap or Centerline snap before tracing.",
        TextKey::ClickStartPoint => "Click, then pick a start point on the image.",
        TextKey::DirectionShort => "Direction",
        TextKey::StepPx => "step (px)",
        TextKey::SearchRadiusShort => "search radius (px)",
        TextKey::MaxPoints => "max points",
        TextKey::GapTolerance => "gap tolerance",
        TextKey::GapToleranceHover => "How many missed steps to tolerate before stopping.",
        TextKey::MinSpacingPx => "min spacing (px)",
        TextKey::ImageInfoWindow => "Image info",
        TextKey::PointsInfoWindow => "Points info",
        TextKey::FileSection => "File",
        TextKey::ImageSection => "Image",
        TextKey::Source => "Source",
        TextKey::Name => "Name",
        TextKey::Path => "Path",
        TextKey::Size => "Size",
        TextKey::SizeUnknown => "Unknown",
        TextKey::Modified => "Modified",
        TextKey::ModifiedUnknown => "Unknown",
        TextKey::NoFileMetadataForImage => "No captured file metadata for this image.",
        TextKey::Dimensions => "Dimensions",
        TextKey::AspectRatio => "Aspect ratio",
        TextKey::AspectRatioNa => "n/a",
        TextKey::Pixels => "Pixels",
        TextKey::RgbaMemoryEstimate => "RGBA memory estimate",
        TextKey::CurrentZoom => "Current zoom",
        TextKey::LoadImageToInspectMetadata => "Load an image to inspect its metadata.",
        TextKey::Points => "Points",
        TextKey::Placed => "Placed",
        TextKey::AddPointsToSeeStats => "Add points to see stats.",
        TextKey::CalibratedPairsNeedsAxes => "Calibrated pairs",
        TextKey::Ranges => "Ranges",
        TextKey::CalibrationSection => "Calibration",
        TextKey::Geometry => "Geometry",
        TextKey::NoData => "no data",
        TextKey::CalibrateAxisToSeeNumericValues => "Calibrate this axis to see numeric values.",
        TextKey::XAxisLength => "X axis length",
        TextKey::YAxisLength => "Y axis length",
        TextKey::XAxisNotSet => "X axis not set",
        TextKey::YAxisNotSet => "Y axis not set",
        TextKey::AngleBetweenAxes => "Angle between axes",
        TextKey::AddBothAxesToMeasureOrthogonality => "Add both calibration axes to measure orthogonality.",
        TextKey::OriginNotSet => "Origin not set",
        TextKey::RadiusPoints => "Radius points",
        TextKey::RadiusPointsSetNeedOrigin => "Radius points set (origin needed for lengths).",
        TextKey::RadiusPointsNotSet => "Radius points not set",
        TextKey::AngleValues => "Angle values",
        TextKey::AnglePointsSetValuesInvalid => "Angle points set (values invalid).",
        TextKey::AnglePointsNotSet => "Angle points not set",
        TextKey::PixelBounds => "Pixel bounds",
        TextKey::Span => "Span",
        TextKey::NoPointsForGeometryStats => "No points for geometry stats.",
        TextKey::AverageStep => "Average step",
        TextKey::TotalPolylineLength => "Total polyline length",
        TextKey::ProjectWarningsWindow => "Project warnings",
        TextKey::ProjectWarningsIntro => "Issues detected while loading the project:",
        TextKey::ContinueAnyway => "Continue anyway",
        TextKey::Cancel => "Cancel",
        TextKey::StatusPoints => "Points",
        TextKey::OpenProjectDialogTitle => "Open project",
        TextKey::CurcatProjectFilterLabel => "Curcat project",
        TextKey::SaveProjectDialogTitle => "Save project",
        TextKey::DefaultProjectName => "project.curcat",
        TextKey::OpenImageDialogTitle => "Open image",
        TextKey::ImageFilterAll => "All images",
        TextKey::PickedLabel => "Picked",
        TextKey::LoadingImageWithName => "Loading image",
        TextKey::LoadingImage => "Loading image…",
        TextKey::DropHint => "Drop an image here, open a file, or paste from clipboard (Ctrl+V).",
        TextKey::Version => "Version",
    }
}

/// Russian text of a key; every key has one.
#[verifier::rlimit(50)]
pub fn ru_text(key: TextKey) -> (r: Option<&'static str>)
    ensures
        r is Some,
        r matches Some(v) ==> ru_spec(key) == Some(v@),
{
    match key {
        TextKey::File => Some("Файл"),
        TextKey::Appearance => Some("Вид"),
        TextKey::OpenImage => Some("Открыть изображение…"),
        TextKey::OpenImageHover => Some("Открыть изображение (Ctrl+O). Можно также перетащить его в центр."),
        TextKey::PasteImage => Some("Вставить изображение"),
        TextKey::PasteImageHover => Some("Вставить изображение из буфера обмена (Ctrl+V)"),
        TextKey::LoadProject => Some("Загрузить проект…"),
        TextKey::LoadProjectHover => Some("Загрузить сохранённый проект Curcat (Ctrl+Shift+P)"),
        TextKey::SaveProject => Some("Сохранить проект"),
        TextKey::SaveProjectHover => Some("Сохранить текущую сессию как проект Curcat (Ctrl+S)"),
        TextKey::HideSide => Some("Скрыть панель"),
        TextKey::ShowSide => Some("Показать панель"),
        TextKey::HideSidePanel => Some("Скрыть боковую панель"),
        TextKey::ShowSidePanel => Some("Показать боковую панель"),
        TextKey::SidePanelPosition => Some("Положение боковой панели"),
        TextKey::Left => Some("Слева"),
        TextKey::Right => Some("Справа"),
        TextKey::ToggleSidePanelHover => Some("Показать/скрыть боковую панель (Ctrl+B) и выбрать её сторону"),
        TextKey::PointsStats => Some("Статистика точек"),
        TextKey::PointsStatsHover => Some("Показать статистику выбранных точек"),
        TextKey::Filters => Some("Фильтры"),
        TextKey::FiltersHover => Some("Показать фильтры изображения (Ctrl+Shift+F)"),
        TextKey::AutoTrace => Some("Авто-трассировка"),
        TextKey::AutoTraceHover => Some("Показать настройки авто-трассировки (Ctrl+Shift+T)"),
        TextKey::ImageInfo => Some("Инфо об изображении"),
        TextKey::ImageInfoHover => Some("Показать информацию о файле и изображении (Ctrl+I)"),
        TextKey::TransformsTogether => Some("Преобразует изображение, точки и калибровку вместе."),
        TextKey::Rotate90Ccw => Some("Повернуть на 90° против часовой стрелки."),
        TextKey::Rotate90Cw => Some("Повернуть на 90° по часовой стрелке."),
        TextKey::FlipHorizontally => Some("Отразить по горизонтали."),
        TextKey::FlipVertically => Some("Отразить по вертикали."),
        TextKey::FlipH => Some("Горизонт."),
        TextKey::FlipV => Some("Вертик."),
        TextKey::Zoom => Some("Масштаб:"),
        TextKey::ZoomHover => Some("Выбрать предустановленный масштаб"),
        TextKey::ZoomPresetsHover => Some("Предустановки масштаба (в процентах)"),
        TextKey::Fit => Some("Вписать"),
        TextKey::FitHover => Some("Вписать изображение в область просмотра (Ctrl+F)"),
        TextKey::ResetView => Some("Сбросить вид"),
        TextKey::ResetViewHover => Some("Сбросить масштаб до 100% и панорамирование к началу (Ctrl+R)"),
        TextKey::PanWithMiddleButton => Some("Панорамирование средней кнопкой мыши"),
        TextKey::MmbPan => Some("Панорам. СКМ"),
        TextKey::MmbPanHover => Some("Включить/выключить панорамирование средней кнопкой"),
        TextKey::ClearPoints => Some("Очистить точки"),
        TextKey::ClearPointsHover => Some("Очистить все точки (Ctrl+Shift+D)"),
        TextKey::Undo => Some("Отменить"),
        TextKey::UndoHover => Some("Отменить последнюю точку (Ctrl+Z)"),
        TextKey::LanguageSwitcherHover => Some("Язык интерфейса"),
        TextKey::PointInput => Some("Ввод точек"),
        TextKey::Free => Some("Свободно"),
        TextKey::ContrastSnap => Some("Привязка к контрасту"),
        TextKey::CenterlineSnap => Some("Привязка к центру линии"),
        TextKey::FreeHover => Some("Ставить точки ровно в месте клика"),
        TextKey::ContrastSnapHover => Some("Привязка к ближайшей области высокого контраста в радиусе поиска"),
        TextKey::CenterlineSnapHover => Some("Привязка к центральной линии цветовой кривой"),
        TextKey::FeatureSource => Some("Источник признака"),
        TextKey::FeatureSourceHover => Some("Что анализатор использует при поиске кандидата"),
        TextKey::ThresholdMode => Some("Режим порога"),
        TextKey::ThresholdModeHover => Some("Как детектор решает, что пиксель достаточно сильный"),
        TextKey::GradientOnly => Some("Только градиент"),
        TextKey::FeatureScore => Some("Оценка признака"),
        TextKey::GradientOnlyHover => Some("Сравнивать порог с сырой силой градиента"),
        TextKey::FeatureScoreHover => Some("Сравнивать порог с объединённой оценкой признаков"),
        TextKey::Threshold => Some("порог"),
        TextKey::ThresholdHigherHint => Some("Больше значение = привязка только к сильным кандидатам"),
        TextKey::CenterlineDetectsFlat => Some("Поиск центральной линии распознаёт однородные цветовые области"),
        TextKey::CenterlineDetectsFlatHover => Some("Выберите цвет кривой, чтобы детектор точнее искал нужную линию"),
        TextKey::StrengthThreshold => Some("Порог силы"),
        TextKey::StrengthThresholdHover => Some("Отбрасывает слабые совпадения центральной линии"),
        TextKey::HigherOnlyWellDefined => Some("Больше значение = привязка только к хорошо выраженным центрам линий"),
        TextKey::BestResultsColorSample => Some("Лучший результат обычно после выбора цвета кривой."),
        TextKey::PreviewCircleHint => Some("Круг предпросмотра на изображении показывает область сканирования."),
        TextKey::ShowPointConnections => Some("Показывать соединения точек"),
        TextKey::ShowPointConnectionsHover => Some("Показать/скрыть линии между выбранными точками (не калибровочными)."),
        TextKey::SearchRadiusPx => Some("Радиус поиска (px)"),
        TextKey::SearchRadiusHover => Some("Измеряется в пикселях изображения; меньшие значения держат привязку ближе к курсору"),
        TextKey::RadiusUsedToLookForCandidates => Some("Радиус, используемый для поиска кандидатов привязки"),
        TextKey::CurveColor => Some("Цвет кривой:"),
        TextKey::CurveColorHover => Some("Целевой цвет кривой"),
        TextKey::PickFromImage => Some("Выбрать с изображения"),
        TextKey::PickFromImageHover => Some("Нажмите и выберите пиксель на изображении"),
        TextKey::Tolerance => Some("допуск"),
        TextKey::ToleranceHover => Some("Насколько цвет пикселя может отличаться от выбранного"),
        TextKey::SnapOverlayColor => Some("Цвет оверлея привязки"),
        TextKey::SnapOverlayColorHover => Some("Варианты вычисляются из изображения для лучшей видимости предпросмотра"),
        TextKey::Calibration => Some("Калибровка"),
        TextKey::CoordinateSystem => Some("Система координат:"),
        TextKey::CoordinateSystemHover => Some("Выберите декартову (X/Y) или полярную (угол/радиус) систему"),
        TextKey::Cartesian => Some("Декартова"),
        TextKey::Polar => Some("Полярная"),
        TextKey::CoordSystemForCalibrationExport => Some("Система координат для калибровки и экспорта"),
        TextKey::Snap15 => Some("Привязка 15°"),
        TextKey::Snap15Hover => Some("Привязывать калибровочные линии к шагу 15° при выборе или перетаскивании"),
        TextKey::ShowCalibrationOverlay => Some("Показывать калибровочный оверлей"),
        TextKey::ShowCalibrationOverlayHover => Some("Показать или скрыть калибровочные линии и подписи точек на изображении"),
        TextKey::Unit => Some("Тип:"),
        TextKey::UnitHover => Some("Тип значения оси (Число/Дата-время)"),
        TextKey::Scale => Some("Шкала:"),
        TextKey::ScaleHover => Some("Шкала оси (Линейная/Лог10)"),
        TextKey::AxisValueTypeHover => Some("Выбрать тип значения оси"),
        TextKey::AxisScaleHover => Some("Выбрать шкалу оси"),
        TextKey::XAxis => Some("Ось X"),
        TextKey::YAxis => Some("Ось Y"),
        TextKey::XAxisCalibrationHover => Some("Калибровка оси X"),
        TextKey::YAxisCalibrationHover => Some("Калибровка оси Y"),
        TextKey::Origin => Some("Начало"),
        TextKey::PickOrigin => Some("Выбрать центр"),
        TextKey::PickOriginHover => Some("Нажмите, затем выберите начало координат на изображении"),
        TextKey::Center => Some("По центру"),
        TextKey::CenterOriginHover => Some("Установить начало координат в центр изображения"),
        TextKey::Radius => Some("Радиус"),
        TextKey::Angle => Some("Угол"),
        TextKey::RadiusScaleHover => Some("Шкала радиуса (Линейная/Лог10)"),
        TextKey::RadiusScaleChoiceHover => Some("Выбрать шкалу радиуса"),
        TextKey::AngleUnit => Some("Ед. угла:"),
        TextKey::AngleUnitHover => Some("Единицы угла (градусы или радианы)"),
        TextKey::Direction => Some("Направление:"),
        TextKey::DirectionHover => Some("Направление увеличения угла"),
        TextKey::MappingOk => Some("Преобразование: готово"),
        TextKey::MappingOkHover => Some("Калибровка завершена — можно ставить точки и экспортировать"),
        TextKey::MappingIncomplete => Some("Преобразование: неполное или некорректное"),
        TextKey::MappingIncompleteHover => Some("Задайте две точки и корректные значения для калибровки"),
        TextKey::MappingOkAxisHover => Some("Калибровка этой оси завершена"),
        TextKey::MappingIncompleteAxisHover => Some("Укажите начало координат, две точки и корректные значения"),
        TextKey::RadiusCalibrationHover => Some("Калибровка радиуса"),
        TextKey::AngleCalibrationHover => Some("Калибровка угла"),
        TextKey::ExportPoints => Some("Экспорт точек"),
        TextKey::InterpolatedCurve => Some("Интерполированная кривая"),
        TextKey::RawPickedPoints => Some("Исходные выбранные точки"),
        TextKey::InterpolatedCurveHover => Some("Экспортировать равномерно распределённые семплы кривой"),
        TextKey::RawPickedPointsHover => Some("Экспортировать только точки, которые вы поставили, по порядку"),
        TextKey::Interpolation => Some("Интерполяция:"),
        TextKey::InterpolationHover => Some("Выберите способ интерполяции между контрольными точками"),
        TextKey::InterpolationAlgorithmHover => Some("Алгоритм, используемый для генерации интерполированных семплов"),
        TextKey::Samples => Some("Семплы:"),
        TextKey::SamplesHover => Some("Количество равномерных семплов для экспорта"),
        TextKey::Count => Some("кол-во"),
        TextKey::Auto => Some("Авто"),
        TextKey::AutoSamplesHover => Some("Автоматически выбрать число семплов по гладкости кривой"),
        TextKey::ExtraColumns => Some("Доп. колонки:"),
        TextKey::ExtraColumnsHover => Some("Дополнительные метрики для выбранных точек"),
        TextKey::IncludeDistanceToPrev => Some("Добавить расстояние до предыдущей точки"),
        TextKey::IncludeDistanceToPrevHover => Some("Добавляет колонку с расстояниями между соседними выбранными точками"),
        TextKey::IncludeAngleDeg => Some("Добавить угол (град.)"),
        TextKey::IncludeAngleDegHover => Some("Добавляет колонку с углами в каждой внутренней точке (первая/последняя пустые)"),
        TextKey::IncludeCartesianColumns => Some("Добавить декартовы колонки x/y"),
        TextKey::IncludeCartesianColumnsHover => Some("Добавляет колонки x и y, вычисленные из угла и радиуса"),
        TextKey::ExportCsv => Some("Экспорт CSV…"),
        TextKey::ExportJson => Some("Экспорт JSON…"),
        TextKey::ExportRon => Some("Экспорт RON…"),
        TextKey::ExportExcel => Some("Экспорт Excel…"),
        TextKey::AddPointsBeforeExport => Some("Добавьте точки перед экспортом в"),
        TextKey::CompleteCalibrationBeforeExportCartesian => Some("Завершите калибровку обеих осей перед экспортом в"),
        TextKey::CompleteCalibrationBeforeExportPolar => Some("Завершите калибровку начала, радиуса и угла перед экспортом в"),
        TextKey::ExportToFormat => Some("Экспортировать данные в"),
        TextKey::ImageFiltersWindow => Some("Фильтры изображения"),
        TextKey::FiltersAffectDisplayOnly => Some("Влияет только на отображение и привязку."),
        TextKey::Brightness => Some("яркость"),
        TextKey::Contrast => Some("контраст"),
        TextKey::Gamma => Some("гамма"),
        TextKey::Invert => Some("инверсия"),
        TextKey::ThresholdEnabled => Some("порог"),
        TextKey::Level => Some("уровень"),
        TextKey::BlurRadius => Some("радиус размытия"),
        TextKey::ResetFilters => Some("Сбросить фильтры"),
        TextKey::LoadImageToAdjustFilters => Some("Загрузите изображение, чтобы настраивать фильтры."),
        TextKey::AutoTraceWindow => Some("Авто-трассировка"),
        TextKey::AutoTraceIntro => Some("Кликните один раз, чтобы автоматически протрассировать сегмент кривой."),
        TextKey::TraceFromClick => Some("Трассировать от клика"),
        TextKey::LoadImageFirst => Some("Сначала загрузите изображение."),
        TextKey::CompleteCalibrationBeforeTracing => Some("Завершите калибровку перед трассировкой."),
        TextKey::AutoTraceCartesianOnly => Some("Авто-трассировка пока поддерживает только декартов режим."),
        TextKey::SelectSnapBeforeTracing => Some("Выберите режим «Привязка по контрасту» или «Привязка к центру линии» перед трассировкой."),
        TextKey::ClickStartPoint => Some("Нажмите и выберите стартовую точку на изображении."),
        TextKey::DirectionShort => Some("Направление"),
        TextKey::StepPx => Some("шаг (px)"),
        TextKey::SearchRadiusShort => Some("радиус поиска (px)"),
        TextKey::MaxPoints => Some("макс. точек"),
        TextKey::GapTolerance => Some("допуск пропусков"),
        TextKey::GapToleranceHover => Some("Сколько пропущенных шагов допускать перед остановкой."),
        TextKey::MinSpacingPx => Some("мин. расстояние (px)"),
        TextKey::ImageInfoWindow => Some("Информация об изображении"),
        TextKey::PointsInfoWindow => Some("Информация о точках"),
        TextKey::FileSection => Some("Файл"),
        TextKey::ImageSection => Some("Изображение"),
        TextKey::Source => Some("Источник"),
        TextKey::Name => Some("Имя"),
        TextKey::Path => Some("Путь"),
        TextKey::Size => Some("Размер"),
        TextKey::SizeUnknown => Some("Неизвестно"),
        TextKey::Modified => Some("Изменён"),
        TextKey::ModifiedUnknown => Some("Неизвестно"),
        TextKey::NoFileMetadataForImage => Some("Для этого изображения нет сохранённых метаданных файла."),
        TextKey::Dimensions => Some("Размеры"),
        TextKey::AspectRatio => Some("Соотношение сторон"),
        TextKey::AspectRatioNa => Some("н/д"),
        TextKey::Pixels => Some("Пиксели"),
        TextKey::RgbaMemoryEstimate => Some("Оценка памяти RGBA"),
        TextKey::CurrentZoom => Some("Текущий масштаб"),
        TextKey::LoadImageToInspectMetadata => Some("Загрузите изображение, чтобы посмотреть его метаданные."),
        TextKey::Points => Some("Точки"),
        TextKey::Placed => Some("Поставлено"),
        TextKey::AddPointsToSeeStats => Some("Добавьте точки, чтобы увидеть статистику."),
        TextKey::CalibratedPairsNeedsAxes => Some("Калиброванных пар"),
        TextKey::Ranges => Some("Диапазоны"),
        TextKey::CalibrationSection => Some("Калибровка"),
        TextKey::Geometry => Some("Геометрия"),
        TextKey::NoData => Some("нет данных"),
        TextKey::CalibrateAxisToSeeNumericValues => Some("Откалибруйте эту ось, чтобы увидеть числовые значения."),
        TextKey::XAxisLength => Some("Длина оси X"),
        TextKey::YAxisLength => Some("Длина оси Y"),
        TextKey::XAxisNotSet => Some("Ось X не задана"),
        TextKey::YAxisNotSet => Some("Ось Y не задана"),
        TextKey::AngleBetweenAxes => Some("Угол между осями"),
        TextKey::AddBothAxesToMeasureOrthogonality => Some("Добавьте обе калибровочные оси для оценки ортогональности."),
        TextKey::OriginNotSet => Some("Начало координат не задано"),
        TextKey::RadiusPoints => Some("Точки радиуса"),
        TextKey::RadiusPointsSetNeedOrigin => Some("Точки радиуса заданы (для длин нужно начало координат)."),
        TextKey::RadiusPointsNotSet => Some("Точки радиуса не заданы"),
        TextKey::AngleValues => Some("Значения угла"),
        TextKey::AnglePointsSetValuesInvalid => Some("Точки угла заданы (значения некорректны)."),
        TextKey::AnglePointsNotSet => Some("Точки угла не заданы"),
        TextKey::PixelBounds => Some("Границы пикселей"),
        TextKey::Span => Some("Размах"),
        TextKey::NoPointsForGeometryStats => Some("Нет точек для геометрической статистики."),
        TextKey::AverageStep => Some("Средний шаг"),
        TextKey::TotalPolylineLength => Some("Суммарная длина ломаной"),
        TextKey::ProjectWarningsWindow => Some("Предупреждения проекта"),
        TextKey::ProjectWarningsIntro => Some("При загрузке проекта обнаружены проблемы:"),
        TextKey::ContinueAnyway => Some("Продолжить"),
        TextKey::Cancel => Some("Отмена"),
        TextKey::StatusPoints => Some("Точек"),
        TextKey::OpenProjectDialogTitle => Some("Открыть проект"),
        TextKey::CurcatProjectFilterLabel => Some("Проект Curcat"),
        TextKey::SaveProjectDialogTitle => Some("Сохранить проект"),
        TextKey::DefaultProjectName => Some("project.curcat"),
        TextKey::OpenImageDialogTitle => Some("Открыть изображение"),
        TextKey::ImageFilterAll => Some("Все изображения"),
        TextKey::PickedLabel => Some("Выбрано"),
        TextKey::LoadingImageWithName => Some("Загрузка изображения"),
        TextKey::LoadingImage => Some("Загрузка изображения…"),
        TextKey::DropHint => Some("Перетащите сюда изображение, откройте файл или вставьте из буфера обмена (Ctrl+V)."),
        TextKey::Version => Some("Версия"),
    }
}

} // verus!
