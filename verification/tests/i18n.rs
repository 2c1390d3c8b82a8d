use curcat::i18n::{choose_text, en_text, ru_text, TextKey, UiLanguage};
use curcat::messages::I18n;

#[test]
fn all_keys_have_ru_translation() {
    for key in TextKey::all() {
        assert!(ru_text(key).is_some(), "Missing RU translation for {key:?}");
    }
}

#[test]
fn fallback_uses_en_when_ru_missing() {
    assert_eq!(choose_text(UiLanguage::Ru, "en", None), "en");
    assert_eq!(choose_text(UiLanguage::Ru, "en", Some("ru")), "ru");
    assert_eq!(choose_text(UiLanguage::En, "en", Some("ru")), "en");
}

#[test]
fn detect_locale_prefers_ru_prefix() {
    assert_eq!(UiLanguage::from_locale_tag("ru_RU.UTF-8"), Some(UiLanguage::Ru));
    assert_eq!(UiLanguage::from_locale_tag("ru"), Some(UiLanguage::Ru));
    assert_eq!(UiLanguage::from_locale_tag("en_US.UTF-8"), Some(UiLanguage::En));
    assert_eq!(UiLanguage::from_locale_tag("C"), Some(UiLanguage::En));
    assert_eq!(UiLanguage::from_locale_tag(""), None);
}

#[test]
fn english_text_is_the_english_table() {
    let en = I18n::new(UiLanguage::En);
    let ru = I18n::new(UiLanguage::Ru);
    for key in TextKey::all() {
        assert_eq!(en.text(key), en_text(key));
        assert_eq!(ru.text(key), ru_text(key).unwrap());
    }
}

#[test]
fn formats_counts_and_dimensions() {
    let en = I18n::new(UiLanguage::En);
    let ru = I18n::new(UiLanguage::Ru);
    assert_eq!(en.format_points_count(42), "Points: 42");
    assert_eq!(ru.format_points_count(7), "Точек: 7");
    assert_eq!(en.format_dimensions(640, 480), "Dimensions: 640 × 480 px");
    assert_eq!(
        en.format_rgba_memory_estimate("1.00 KiB", 1024),
        "RGBA memory estimate: 1.00 KiB (1024 bytes)"
    );
    assert_eq!(
        ru.format_rgba_memory_estimate("1.00 KiB", 1024),
        "Оценка памяти RGBA: 1.00 KiB (1024 байт)"
    );
    assert_eq!(en.format_status_picking("Pick X1"), "Pick X1… (Esc to cancel)");
    assert_eq!(ru.format_status_picking("X1"), "X1… (Esc чтобы отменить)");
}

#[test]
fn locale_tags_with_modifiers() {
    assert_eq!(UiLanguage::from_locale_tag("RU_ru@euro"), Some(UiLanguage::Ru));
    assert_eq!(UiLanguage::from_locale_tag("de_DE"), Some(UiLanguage::En));
}
