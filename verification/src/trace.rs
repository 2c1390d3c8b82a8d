//! When automatic tracing may run, and what it tells the user when it cannot.

use vstd::prelude::*;
use crate::i18n::UiLanguage;

verus! {

/// Why automatic tracing did not add points.
#[derive(Debug, Clone, Copy, PartialEq, Eq, Structural)]
pub enum TraceRefusal {
    NoImage,
    NotCalibrated,
    NotCartesian,
    NoSnapping,
    NoStartCandidate,
    NoPoints,
}

pub open spec fn refusal_text_spec(lang: UiLanguage, r: TraceRefusal) -> Seq<char> {
    match (lang, r) {
        (UiLanguage::En, TraceRefusal::NoImage) => "Auto-trace requires an image."@,
        (UiLanguage::Ru, TraceRefusal::NoImage) => "Для авто-трассировки нужно изображение."@,
        (UiLanguage::En, TraceRefusal::NotCalibrated) => "Auto-trace requires completed calibration."@,
        (UiLanguage::Ru, TraceRefusal::NotCalibrated) => "Для авто-трассировки нужна завершённая калибровка."@,
        (UiLanguage::En, TraceRefusal::NotCartesian) => "Auto-trace currently supports Cartesian calibration only."@,
        (UiLanguage::Ru, TraceRefusal::NotCartesian) => "Авто-трассировка сейчас поддерживает только декартову калибровку."@,
        (UiLanguage::En, TraceRefusal::NoSnapping) => "Auto-trace requires snapping (Contrast/Centerline)."@,
        (UiLanguage::Ru, TraceRefusal::NoSnapping) => "Для авто-трассировки нужен режим привязки (Contrast/Centerline)."@,
        (UiLanguage::En, TraceRefusal::NoStartCandidate) => "Auto-trace failed: no snap candidate near the click."@,
        (UiLanguage::Ru, TraceRefusal::NoStartCandidate) => "Авто-трассировка не удалась: рядом с кликом нет кандидата привязки."@,
        (UiLanguage::En, TraceRefusal::NoPoints) => "Auto-trace found no points."@,
        (UiLanguage::Ru, TraceRefusal::NoPoints) => "Авто-трассировка не нашла точек."@,
    }
}

impl TraceRefusal {
    /// The status line for this refusal.
    pub fn message(self, lang: UiLanguage) -> (r: &'static str)
        ensures
            r@ == refusal_text_spec(lang, self),
    {
        match (lang, self) {
            (UiLanguage::En, TraceRefusal::NoImage) => "Auto-trace requires an image.",
            (UiLanguage::Ru, TraceRefusal::NoImage) => "Для авто-трассировки нужно изображение.",
            (UiLanguage::En, TraceRefusal::NotCalibrated) => "Auto-trace requires completed calibration.",
            (UiLanguage::Ru, TraceRefusal::NotCalibrated) => "Для авто-трассировки нужна завершённая калибровка.",
            (UiLanguage::En, TraceRefusal::NotCartesian) => "Auto-trace currently supports Cartesian calibration only.",
            (UiLanguage::Ru, TraceRefusal::NotCartesian) => "Авто-трассировка сейчас поддерживает только декартову калибровку.",
            (UiLanguage::En, TraceRefusal::NoSnapping) => "Auto-trace requires snapping (Contrast/Centerline).",
            (UiLanguage::Ru, TraceRefusal::NoSnapping) => "Для авто-трассировки нужен режим привязки (Contrast/Centerline).",
            (UiLanguage::En, TraceRefusal::NoStartCandidate) => "Auto-trace failed: no snap candidate near the click.",
            (UiLanguage::Ru, TraceRefusal::NoStartCandidate) => "Авто-трассировка не удалась: рядом с кликом нет кандидата привязки.",
            (UiLanguage::En, TraceRefusal::NoPoints) => "Auto-trace found no points.",
            (UiLanguage::Ru, TraceRefusal::NoPoints) => "Авто-трассировка не нашла точек.",
        }
    }
}

/// The first unmet requirement of automatic tracing, checked in this order:
/// an image, a finished calibration, a Cartesian one, and a snapping mode;
/// `None` when tracing may start.
pub fn trace_precheck(has_image: bool, calibrated: bool, cartesian: bool, snapping: bool) -> (r: Option<TraceRefusal>)
    ensures
        r == (if !has_image {
            Some(TraceRefusal::NoImage)
        } else if !calibrated {
            Some(TraceRefusal::NotCalibrated)
        } else if !cartesian {
            Some(TraceRefusal::NotCartesian)
        } else if !snapping {
            Some(TraceRefusal::NoSnapping)
        } else {
            None::<TraceRefusal>
        }),
{
    if !has_image {
        Some(TraceRefusal::NoImage)
    } else if !calibrated {
        Some(TraceRefusal::NotCalibrated)
    } else if !cartesian {
        Some(TraceRefusal::NotCartesian)
    } else if !snapping {
        Some(TraceRefusal::NoSnapping)
    } else {
        None
    }
}

/// Limits of a trace walk that are whole numbers.
#[derive(Debug, Clone, Copy, PartialEq, Eq)]
pub struct TraceCounts {
    pub max_points: usize,
    pub max_misses: u32,
}

/// The whole-number limits as sanitising leaves them: between 2 and 20000
/// probes, at most 1000 misses in a row.
pub fn sanitize_trace_counts(max_points: usize, max_misses: u32) -> (r: TraceCounts)
    ensures
        r.max_points == if max_points < 2 { 2 } else if max_points > 20_000 { 20_000 } else { max_points },
        r.max_misses == if max_misses > 1000 { 1000 } else { max_misses },
{
    let max_points = if max_points < 2 { 2 } else if max_points > 20_000 { 20_000 } else { max_points };
    let max_misses = if max_misses > 1000 { 1000 } else { max_misses };
    TraceCounts { max_points, max_misses }
}

} // verus!
