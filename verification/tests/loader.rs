use curcat::i18n::UiLanguage;
use curcat::loader::{image_load_gate, limit_rejection, load_step, LoadEvent};
use curcat::ui::StatusLevel;

#[test]
fn ready_image_finishes_and_pending_task_waits() {
    let ready = load_step(UiLanguage::En, "plot.png", &LoadEvent::Ready);
    assert!(ready.finish_image && !ready.keep_task && ready.status.is_none());
    assert!(!ready.drop_project_apply && !ready.open_limit_prompt);
    let pending = load_step(UiLanguage::En, "plot.png", &LoadEvent::Pending);
    assert!(pending.keep_task && !pending.finish_image && pending.status.is_none());
}

#[test]
fn limit_breach_opens_prompt_with_warning() {
    let step = load_step(UiLanguage::En, "plot.png", &LoadEvent::NeedsLimitDecision);
    assert!(step.open_limit_prompt && !step.drop_project_apply && !step.keep_task);
    assert_eq!(
        step.status,
        Some((StatusLevel::Warn, "plot.png exceeds configured limits. Choose how to continue.".to_string()))
    );
    let ru = load_step(UiLanguage::Ru, "plot.png", &LoadEvent::NeedsLimitDecision);
    assert_eq!(
        ru.status,
        Some((StatusLevel::Warn, "plot.png превышает лимиты. Выберите, как продолжить загрузку.".to_string()))
    );
}

#[test]
fn failures_drop_pending_project_and_prompt() {
    let failed = load_step(UiLanguage::En, "x.svg", &LoadEvent::Failed("bad header".to_string()));
    assert!(failed.drop_project_apply && failed.drop_limit_prompt && !failed.finish_image);
    assert_eq!(failed.status, Some((StatusLevel::Error, "Failed to load x.svg: bad header".to_string())));
    let gone = load_step(UiLanguage::Ru, "x.svg", &LoadEvent::Disconnected);
    assert!(gone.drop_project_apply && gone.drop_limit_prompt);
    assert_eq!(
        gone.status,
        Some((StatusLevel::Error, "Ошибка загрузки x.svg: рабочий поток отключился.".to_string()))
    );
    let gone_en = load_step(UiLanguage::En, "x.svg", &LoadEvent::Disconnected);
    assert_eq!(
        gone_en.status,
        Some((StatusLevel::Error, "Loading x.svg failed: worker disconnected.".to_string()))
    );
}

#[test]
fn rejecting_limits_only_acts_on_open_prompt() {
    assert_eq!(limit_rejection(UiLanguage::En, false), None);
    assert_eq!(limit_rejection(UiLanguage::En, true).as_deref(), Some("Image load canceled due to limits."));
    assert_eq!(
        limit_rejection(UiLanguage::Ru, true).as_deref(),
        Some("Загрузка изображения отменена из-за лимитов.")
    );
}

#[test]
fn pending_project_blocks_other_image_loads() {
    assert_eq!(image_load_gate(UiLanguage::En, false, false), Ok(()));
    assert_eq!(image_load_gate(UiLanguage::En, true, true), Ok(()));
    assert_eq!(
        image_load_gate(UiLanguage::En, true, false),
        Err("Project loading in progress. Wait until it finishes.".to_string())
    );
}
