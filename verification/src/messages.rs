//! Localised status and information messages.

use vstd::prelude::*;
use crate::i18n::{choose_text, en_text, ru_text, text_spec, TextKey, UiLanguage};
use crate::kinds::{InterpAlgorithm, SnapFeatureSource, SnapThresholdKind};
use crate::text::{decimal, push_decimal, push_str};

verus! {

/// Text lookup and message formatting for one interface language.
#[derive(Debug, Clone, Copy)]
pub struct I18n {
    lang: UiLanguage,
}

/// `a: b`, the shape of most labelled values.
pub open spec fn labelled(label: Seq<char>, value: Seq<char>) -> Seq<char> {
    label + ": "@ + value
}

fn labelled_text(lang: UiLanguage, key: TextKey, value: &str) -> (r: String)
    ensures
        r@ == labelled(text_spec(lang, key), value@),
{
    let mut s = String::new();
    push_str(&mut s, choose_text(lang, en_text(key), ru_text(key)));
    push_str(&mut s, ": ");
    push_str(&mut s, value);
    s
}

fn labelled_count(lang: UiLanguage, key: TextKey, value: u64) -> (r: String)
    ensures
        r@ == labelled(text_spec(lang, key), decimal(value as nat)),
{
    let mut s = String::new();
    push_str(&mut s, choose_text(lang, en_text(key), ru_text(key)));
    push_str(&mut s, ": ");
    push_decimal(&mut s, value);
    s
}

impl I18n {
    /// The language of this text set.
    pub closed spec fn language(self) -> UiLanguage {
        self.lang
    }

    pub fn new(lang: UiLanguage) -> (r: I18n)
        ensures
            r.language() == lang,
    {
        I18n { lang }
    }

    /// Text of `key`, in English or Russian (falling back to English).
    pub fn text(self, key: TextKey) -> (r: &'static str)
        ensures
            r@ == text_spec(self.language(), key),
    {
        let en = en_text(key);
        let ru = ru_text(key);
        choose_text(self.lang, en, ru)
    }

    pub fn format_status_picking(self, label: &str) -> (r: String)
        ensures
            r@ == match self.language() {
                UiLanguage::En => label@ + "… (Esc to cancel)"@,
                UiLanguage::Ru => label@ + "… (Esc чтобы отменить)"@,
            },
    {
        let mut s = String::new();
        push_str(&mut s, label);
        match self.lang {
            UiLanguage::En => push_str(&mut s, "… (Esc to cancel)"),
            UiLanguage::Ru => push_str(&mut s, "… (Esc чтобы отменить)"),
        }
        s
    }

    pub fn format_picked(self, label: &str) -> (r: String)
        ensures
            r@ == labelled(text_spec(self.language(), TextKey::PickedLabel), label@),
    {
        labelled_text(self.lang, TextKey::PickedLabel, label)
    }

    pub fn format_points_count(self, points_count: usize) -> (r: String)
        ensures
            r@ == labelled(text_spec(self.language(), TextKey::StatusPoints), decimal(points_count as nat)),
    {
        labelled_count(self.lang, TextKey::StatusPoints, points_count as u64)
    }

    pub fn format_loading_image(self, description: &str) -> (r: String)
        ensures
            r@ == labelled(text_spec(self.language(), TextKey::LoadingImageWithName), description@)
                + "…"@,
    {
        let mut s = labelled_text(self.lang, TextKey::LoadingImageWithName, description);
        push_str(&mut s, "…");
        s
    }

    pub fn format_auto_trace_added(self, count: usize) -> (r: String)
        ensures
            r@ == match self.language() {
                UiLanguage::En => "Auto-trace added "@ + decimal(count as nat) + " points."@,
                UiLanguage::Ru => "Авто-трассировка добавила "@ + decimal(count as nat) + " точек."@,
            },
    {
        let mut s = String::new();
        match self.lang {
            UiLanguage::En => {
                push_str(&mut s, "Auto-trace added ");
                push_decimal(&mut s, count as u64);
                push_str(&mut s, " points.");
            },
            UiLanguage::Ru => {
                push_str(&mut s, "Авто-трассировка добавила ");
                push_decimal(&mut s, count as u64);
                push_str(&mut s, " точек.");
            },
        }
        s
    }

    pub fn format_sample_count_tuned(self, count: usize) -> (r: String)
        ensures
            r@ == match self.language() {
                UiLanguage::En => "Sample count auto-tuned to "@ + decimal(count as nat) + "."@,
                UiLanguage::Ru => "Число семплов автоматически подобрано: "@ + decimal(count as nat)
                    + "."@,
            },
    {
        let mut s = String::new();
        match self.lang {
            UiLanguage::En => push_str(&mut s, "Sample count auto-tuned to "),
            UiLanguage::Ru => push_str(&mut s, "Число семплов автоматически подобрано: "),
        }
        push_decimal(&mut s, count as u64);
        push_str(&mut s, ".");
        s
    }

    pub fn format_loaded_name(self, name: &str) -> (r: String)
        ensures
            r@ == match self.language() {
                UiLanguage::En => "Loaded "@ + name@,
                UiLanguage::Ru => "Загружено: "@ + name@,
            },
    {
        let mut s = String::new();
        match self.lang {
            UiLanguage::En => push_str(&mut s, "Loaded "),
            UiLanguage::Ru => push_str(&mut s, "Загружено: "),
        }
        push_str(&mut s, name);
        s
    }

    pub fn format_exported(self, format_label: &str) -> (r: String)
        ensures
            r@ == match self.language() {
                UiLanguage::En => format_label@ + " exported."@,
                UiLanguage::Ru => "Экспортировано в "@ + format_label@ + "."@,
            },
    {
        let mut s = String::new();
        match self.lang {
            UiLanguage::En => {
                push_str(&mut s, format_label);
                push_str(&mut s, " exported.");
            },
            UiLanguage::Ru => {
                push_str(&mut s, "Экспортировано в ");
                push_str(&mut s, format_label);
                push_str(&mut s, ".");
            },
        }
        s
    }

    pub fn format_export_failed(self, format_label: &str, err: &str) -> (r: String)
        ensures
            r@ == match self.language() {
                UiLanguage::En => format_label@ + " export failed: "@ + err@,
                UiLanguage::Ru => "Ошибка экспорта "@ + format_label@ + ": "@ + err@,
            },
    {
        let mut s = String::new();
        match self.lang {
            UiLanguage::En => {
                push_str(&mut s, format_label);
                push_str(&mut s, " export failed: ");
            },
            UiLanguage::Ru => {
                push_str(&mut s, "Ошибка экспорта ");
                push_str(&mut s, format_label);
                push_str(&mut s, ": ");
            },
        }
        push_str(&mut s, err);
        s
    }

    pub fn format_source(self, value: &str) -> (r: String)
        ensures
            r@ == labelled(text_spec(self.language(), TextKey::Source), value@),
    {
        labelled_text(self.lang, TextKey::Source, value)
    }

    pub fn format_name(self, value: &str) -> (r: String)
        ensures
            r@ == labelled(text_spec(self.language(), TextKey::Name), value@),
    {
        labelled_text(self.lang, TextKey::Name, value)
    }

    pub fn format_path(self, value: &str) -> (r: String)
        ensures
            r@ == labelled(text_spec(self.language(), TextKey::Path), value@),
    {
        labelled_text(self.lang, TextKey::Path, value)
    }

    pub fn format_size(self, value: &str) -> (r: String)
        ensures
            r@ == labelled(text_spec(self.language(), TextKey::Size), value@),
    {
        labelled_text(self.lang, TextKey::Size, value)
    }

    pub fn format_modified(self, value: &str) -> (r: String)
        ensures
            r@ == labelled(text_spec(self.language(), TextKey::Modified), value@),
    {
        labelled_text(self.lang, TextKey::Modified, value)
    }

    pub fn format_dimensions(self, w: usize, h: usize) -> (r: String)
        ensures
            r@ == labelled(text_spec(self.language(), TextKey::Dimensions), decimal(w as nat))
                + " × "@ + decimal(h as nat) + " px"@,
    {
        let mut s = labelled_count(self.lang, TextKey::Dimensions, w as u64);
        push_str(&mut s, " × ");
        push_decimal(&mut s, h as u64);
        push_str(&mut s, " px");
        s
    }

    pub fn format_aspect_ratio(self, value: &str) -> (r: String)
        ensures
            r@ == labelled(text_spec(self.language(), TextKey::AspectRatio), value@),
    {
        labelled_text(self.lang, TextKey::AspectRatio, value)
    }

    pub fn format_rgba_memory_estimate(self, readable: &str, bytes: u64) -> (r: String)
        ensures
            r@ == labelled(text_spec(self.language(), TextKey::RgbaMemoryEstimate), readable@)
                + " ("@ + decimal(bytes as nat) + match self.language() {
                UiLanguage::En => " bytes)"@,
                UiLanguage::Ru => " байт)"@,
            },
    {
        let mut s = labelled_text(self.lang, TextKey::RgbaMemoryEstimate, readable);
        push_str(&mut s, " (");
        push_decimal(&mut s, bytes);
        match self.lang {
            UiLanguage::En => push_str(&mut s, " bytes)"),
            UiLanguage::Ru => push_str(&mut s, " байт)"),
        }
        s
    }

    pub fn format_current_zoom(self, zoom: &str) -> (r: String)
        ensures
            r@ == labelled(text_spec(self.language(), TextKey::CurrentZoom), zoom@),
    {
        labelled_text(self.lang, TextKey::CurrentZoom, zoom)
    }

    pub fn format_placed_points(self, total: usize) -> (r: String)
        ensures
            r@ == labelled(text_spec(self.language(), TextKey::Placed), decimal(total as nat)),
    {
        labelled_count(self.lang, TextKey::Placed, total as u64)
    }

    pub fn format_calibrated_pairs(self, calibrated: usize) -> (r: String)
        ensures
            r@ == labelled(
                text_spec(self.language(), TextKey::CalibratedPairsNeedsAxes),
                decimal(calibrated as nat),
            ),
    {
        labelled_count(self.lang, TextKey::CalibratedPairsNeedsAxes, calibrated as u64)
    }

    pub fn format_axis_range(self, label: &str, min: &str, max: &str, span: &str) -> (r: String)
        ensures
            r@ == label@ + ": "@ + min@ + " … "@ + max@ + " (Δ "@ + span@ + ")"@,
    {
        let mut s = String::new();
        push_str(&mut s, label);
        push_str(&mut s, ": ");
        push_str(&mut s, min);
        push_str(&mut s, " … ");
        push_str(&mut s, max);
        push_str(&mut s, " (Δ ");
        push_str(&mut s, span);
        push_str(&mut s, ")");
        s
    }

    pub fn format_angle_values(self, v1: &str, v2: &str, unit: &str) -> (r: String)
        ensures
            r@ == labelled(text_spec(self.language(), TextKey::AngleValues), v1@) + " … "@ + v2@
                + " "@ + unit@,
    {
        let mut s = labelled_text(self.lang, TextKey::AngleValues, v1);
        push_str(&mut s, " … ");
        push_str(&mut s, v2);
        push_str(&mut s, " ");
        push_str(&mut s, unit);
        s
    }

    pub fn format_loading_image_row(self, description: &str) -> (r: String)
        ensures
            r@ == match self.language() {
                UiLanguage::En => "Loading image: "@ + description@ + "…"@,
                UiLanguage::Ru => "Загрузка изображения: "@ + description@ + "…"@,
            },
    {
        let mut s = String::new();
        match self.lang {
            UiLanguage::En => push_str(&mut s, "Loading image: "),
            UiLanguage::Ru => push_str(&mut s, "Загрузка изображения: "),
        }
        push_str(&mut s, description);
        push_str(&mut s, "…");
        s
    }

    pub fn format_version(self, version: &str) -> (r: String)
        ensures
            r@ == text_spec(self.language(), TextKey::Version) + " "@ + version@,
    {
        let mut s = String::new();
        push_str(&mut s, self.text(TextKey::Version));
        push_str(&mut s, " ");
        push_str(&mut s, version);
        s
    }

    pub fn interp_algorithm_label(self, algo: InterpAlgorithm) -> (r: &'static str)
        ensures
            r@ == match (self.language(), algo) {
                (UiLanguage::En, InterpAlgorithm::Linear) => "Linear"@,
                (UiLanguage::En, InterpAlgorithm::StepHold) => "Step (previous)"@,
                (UiLanguage::En, InterpAlgorithm::NaturalCubic) => "Natural cubic spline"@,
                (UiLanguage::Ru, InterpAlgorithm::Linear) => "Линейная"@,
                (UiLanguage::Ru, InterpAlgorithm::StepHold) => "Ступенчатая (пред.)"@,
                (UiLanguage::Ru, InterpAlgorithm::NaturalCubic) => "Натуральный кубический сплайн"@,
            },
    {
        match (self.lang, algo) {
            (UiLanguage::En, InterpAlgorithm::Linear) => "Linear",
            (UiLanguage::En, InterpAlgorithm::StepHold) => "Step (previous)",
            (UiLanguage::En, InterpAlgorithm::NaturalCubic) => "Natural cubic spline",
            (UiLanguage::Ru, InterpAlgorithm::Linear) => "Линейная",
            (UiLanguage::Ru, InterpAlgorithm::StepHold) => "Ступенчатая (пред.)",
            (UiLanguage::Ru, InterpAlgorithm::NaturalCubic) => "Натуральный кубический сплайн",
        }
    }

    pub fn snap_feature_source_label(self, source: SnapFeatureSource) -> (r: &'static str)
        ensures
            r@ == match (self.language(), source) {
                (UiLanguage::En, SnapFeatureSource::LumaGradient) => "Luma gradient"@,
                (UiLanguage::En, SnapFeatureSource::ColorMatch) => "Color mask"@,
                (UiLanguage::En, SnapFeatureSource::Hybrid) => "Gradient + color"@,
                (UiLanguage::Ru, SnapFeatureSource::LumaGradient) => "Градиент яркости"@,
                (UiLanguage::Ru, SnapFeatureSource::ColorMatch) => "Цветовая маска"@,
                (UiLanguage::Ru, SnapFeatureSource::Hybrid) => "Градиент + цвет"@,
            },
    {
        match (self.lang, source) {
            (UiLanguage::En, SnapFeatureSource::LumaGradient) => "Luma gradient",
            (UiLanguage::En, SnapFeatureSource::ColorMatch) => "Color mask",
            (UiLanguage::En, SnapFeatureSource::Hybrid) => "Gradient + color",
            (UiLanguage::Ru, SnapFeatureSource::LumaGradient) => "Градиент яркости",
            (UiLanguage::Ru, SnapFeatureSource::ColorMatch) => "Цветовая маска",
            (UiLanguage::Ru, SnapFeatureSource::Hybrid) => "Градиент + цвет",
        }
    }

    pub fn snap_threshold_kind_label(self, kind: SnapThresholdKind) -> (r: &'static str)
        ensures
            r@ == match kind {
                SnapThresholdKind::Gradient => text_spec(self.language(), TextKey::GradientOnly),
                SnapThresholdKind::Score => text_spec(self.language(), TextKey::FeatureScore),
            },
    {
        match kind {
            SnapThresholdKind::Gradient => self.text(TextKey::GradientOnly),
            SnapThresholdKind::Score => self.text(TextKey::FeatureScore),
        }
    }
}

} // verus!
