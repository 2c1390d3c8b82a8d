use curcat::i18n::UiLanguage;
use curcat::trace::{sanitize_trace_counts, trace_precheck, TraceCounts, TraceRefusal};

#[test]
fn tracing_requirements_are_checked_in_order() {
    assert_eq!(trace_precheck(false, false, false, false), Some(TraceRefusal::NoImage));
    assert_eq!(trace_precheck(true, false, false, false), Some(TraceRefusal::NotCalibrated));
    assert_eq!(trace_precheck(true, true, false, false), Some(TraceRefusal::NotCartesian));
    assert_eq!(trace_precheck(true, true, true, false), Some(TraceRefusal::NoSnapping));
    assert_eq!(trace_precheck(true, true, true, true), None);
}

#[test]
fn tracing_refusals_have_messages_in_both_languages() {
    assert_eq!(TraceRefusal::NoImage.message(UiLanguage::En), "Auto-trace requires an image.");
    assert_eq!(
        TraceRefusal::NoSnapping.message(UiLanguage::Ru),
        "Для авто-трассировки нужен режим привязки (Contrast/Centerline)."
    );
    assert_eq!(
        TraceRefusal::NoStartCandidate.message(UiLanguage::En),
        "Auto-trace failed: no snap candidate near the click."
    );
    assert_eq!(TraceRefusal::NoPoints.message(UiLanguage::Ru), "Авто-трассировка не нашла точек.");
}

#[test]
fn trace_counts_are_clamped() {
    assert_eq!(sanitize_trace_counts(800, 8), TraceCounts { max_points: 800, max_misses: 8 });
    assert_eq!(sanitize_trace_counts(0, 5000), TraceCounts { max_points: 2, max_misses: 1000 });
    assert_eq!(sanitize_trace_counts(1_000_000, 0), TraceCounts { max_points: 20_000, max_misses: 0 });
}
