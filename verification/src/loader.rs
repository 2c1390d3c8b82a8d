//! Decisions of the background image loader: what each report of the worker
//! does to the pending task, the limit prompt and a pending project, and the
//! status line it leaves.

use vstd::prelude::*;
use crate::i18n::UiLanguage;
use crate::text::push_str;
use crate::ui::StatusLevel;

verus! {

/// What polling the loading worker gave.
#[derive(Debug, Clone, PartialEq, Eq)]
pub enum LoadEvent {
    /// The image was decoded.
    Ready,
    /// The image exceeds the configured limits; the user must choose.
    NeedsLimitDecision,
    /// Decoding failed with this message.
    Failed(String),
    /// The worker has not answered yet.
    Pending,
    /// The worker went away without answering.
    Disconnected,
}

/// What the application does after one poll.
#[derive(Debug, Clone, PartialEq, Eq)]
pub struct LoadStep {
    /// Status line to show, with its severity.
    pub status: Option<(StatusLevel, String)>,
    /// The task stays pending and is polled again.
    pub keep_task: bool,
    /// The decoded image is installed (and a pending project applied).
    pub finish_image: bool,
    /// The request is kept behind a prompt about the limits.
    pub open_limit_prompt: bool,
    /// A project waiting for this image is abandoned.
    pub drop_project_apply: bool,
    /// A limit prompt still shown is closed.
    pub drop_limit_prompt: bool,
}

pub open spec fn load_status_spec(lang: UiLanguage, label: Seq<char>, event: LoadEvent) -> Option<(StatusLevel, Seq<char>)> {
    match event {
        LoadEvent::NeedsLimitDecision => Some((StatusLevel::Warn, match lang {
            UiLanguage::En => label + " exceeds configured limits. Choose how to continue."@,
            UiLanguage::Ru => label + " превышает лимиты. Выберите, как продолжить загрузку."@,
        })),
        LoadEvent::Failed(err) => Some((StatusLevel::Error, match lang {
            UiLanguage::En => "Failed to load "@ + label + ": "@ + err@,
            UiLanguage::Ru => "Не удалось загрузить "@ + label + ": "@ + err@,
        })),
        LoadEvent::Disconnected => Some((StatusLevel::Error, match lang {
            UiLanguage::En => "Loading "@ + label + " failed: worker disconnected."@,
            UiLanguage::Ru => "Ошибка загрузки "@ + label + ": рабочий поток отключился."@,
        })),
        LoadEvent::Ready => None,
        LoadEvent::Pending => None,
    }
}

pub open spec fn status_matches(r: Option<(StatusLevel, String)>, s: Option<(StatusLevel, Seq<char>)>) -> bool {
    match (r, s) {
        (Some((l, t)), Some((m, u))) => l == m && t@ == u,
        (None, None) => true,
        _ => false,
    }
}

/// The step taken on one report of the loader; `label` describes the image
/// being loaded.
pub fn load_step(lang: UiLanguage, label: &str, event: &LoadEvent) -> (r: LoadStep)
    ensures
        status_matches(r.status, load_status_spec(lang, label@, *event)),
        r.keep_task == (*event is Pending),
        r.finish_image == (*event is Ready),
        r.open_limit_prompt == (*event is NeedsLimitDecision),
        r.drop_project_apply == (*event is Failed || *event is Disconnected),
        r.drop_limit_prompt == (*event is Failed || *event is Disconnected),
{
    let quiet = LoadStep {
        status: None,
        keep_task: false,
        finish_image: false,
        open_limit_prompt: false,
        drop_project_apply: false,
        drop_limit_prompt: false,
    };
    match event {
        LoadEvent::Ready => LoadStep { finish_image: true, ..quiet },
        LoadEvent::Pending => LoadStep { keep_task: true, ..quiet },
        LoadEvent::NeedsLimitDecision => {
            let mut s = String::new();
            push_str(&mut s, label);
            match lang {
                UiLanguage::En => push_str(&mut s, " exceeds configured limits. Choose how to continue."),
                UiLanguage::Ru => push_str(&mut s, " превышает лимиты. Выберите, как продолжить загрузку."),
            }
            LoadStep { status: Some((StatusLevel::Warn, s)), open_limit_prompt: true, ..quiet }
        },
        LoadEvent::Failed(err) => {
            let mut s = String::new();
            match lang {
                UiLanguage::En => push_str(&mut s, "Failed to load "),
                UiLanguage::Ru => push_str(&mut s, "Не удалось загрузить "),
            }
            push_str(&mut s, label);
            push_str(&mut s, ": ");
            push_str(&mut s, err.as_str());
            LoadStep {
                status: Some((StatusLevel::Error, s)),
                drop_project_apply: true,
                drop_limit_prompt: true,
                ..quiet
            }
        },
        LoadEvent::Disconnected => {
            let mut s = String::new();
            match lang {
                UiLanguage::En => {
                    push_str(&mut s, "Loading ");
                    push_str(&mut s, label);
                    push_str(&mut s, " failed: worker disconnected.");
                },
                UiLanguage::Ru => {
                    push_str(&mut s, "Ошибка загрузки ");
                    push_str(&mut s, label);
                    push_str(&mut s, ": рабочий поток отключился.");
                },
            }
            LoadStep {
                status: Some((StatusLevel::Error, s)),
                drop_project_apply: true,
                drop_limit_prompt: true,
                ..quiet
            }
        },
    }
}

pub open spec fn limit_rejection_spec(lang: UiLanguage) -> Seq<char> {
    match lang {
        UiLanguage::En => "Image load canceled due to limits."@,
        UiLanguage::Ru => "Загрузка изображения отменена из-за лимитов."@,
    }
}

/// Declining the limit prompt: when a prompt was open, the load is dropped
/// together with any project waiting for it, and this warning is shown;
/// `None` when no prompt was open, and nothing changes.
pub fn limit_rejection(lang: UiLanguage, prompt_open: bool) -> (r: Option<String>)
    ensures
        prompt_open <==> r is Some,
        r matches Some(t) ==> t@ == limit_rejection_spec(lang),
{
    if !prompt_open {
        return None;
    }
    let mut s = String::new();
    match lang {
        UiLanguage::En => push_str(&mut s, "Image load canceled due to limits."),
        UiLanguage::Ru => push_str(&mut s, "Загрузка изображения отменена из-за лимитов."),
    }
    Some(s)
}

pub open spec fn busy_project_spec(lang: UiLanguage) -> Seq<char> {
    match lang {
        UiLanguage::En => "Project loading in progress. Wait until it finishes."@,
        UiLanguage::Ru => "Идёт загрузка проекта. Дождитесь завершения."@,
    }
}

/// Whether a new image load may start: always when no project waits for
/// its image, otherwise only the load of that very image (`is_project_image`);
/// a refused load gets this warning.
pub fn image_load_gate(lang: UiLanguage, project_waiting: bool, is_project_image: bool) -> (r: Result<(), String>)
    ensures
        r is Ok <==> (!project_waiting || is_project_image),
        r matches Err(t) ==> t@ == busy_project_spec(lang),
{
    if !project_waiting || is_project_image {
        return Ok(());
    }
    let mut s = String::new();
    match lang {
        UiLanguage::En => push_str(&mut s, "Project loading in progress. Wait until it finishes."),
        UiLanguage::Ru => push_str(&mut s, "Идёт загрузка проекта. Дождитесь завершения."),
    }
    Err(s)
}

} // verus!
