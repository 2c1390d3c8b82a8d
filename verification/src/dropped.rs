//! Choosing what to load from files dropped on the window.

use vstd::prelude::*;
use std::path::PathBuf;
use std::time::SystemTime;
use crate::i18n::UiLanguage;

verus! {

/// A file dropped on the window, as the windowing layer reports it: a path
/// when it lives on disk, else possibly its bytes.
pub struct DroppedFile {
    pub path: Option<PathBuf>,
    pub name: String,
    pub bytes: Option<Vec<u8>>,
    pub last_modified: Option<SystemTime>,
}

/// What a drop leads to.
pub enum DropAction {
    /// Nothing was dropped.
    Nothing,
    LoadPath(PathBuf),
    LoadBytes { name: Option<String>, bytes: Vec<u8>, last_modified: Option<SystemTime> },
    /// Files were dropped, but none with a path or bytes.
    FailNoReadable,
}

/// The file has a path or bytes to load from.
pub open spec fn readable(f: DroppedFile) -> bool {
    f.path is Some || f.bytes is Some
}

/// The drop loads the first readable file: from its path when it has one,
/// else from its bytes, under its name unless that is empty.
pub open spec fn drop_action_ok(files: Seq<DroppedFile>, r: DropAction) -> bool {
    if files.len() == 0 {
        r is Nothing
    } else if forall|i: int| 0 <= i < files.len() ==> !readable(#[trigger] files[i]) {
        r is FailNoReadable
    } else {
        exists|i: int|
            0 <= i < files.len() && readable(#[trigger] files[i]) && (forall|j: int|
                0 <= j < i ==> !readable(#[trigger] files[j])) && match files[i].path {
                Some(p) => r == DropAction::LoadPath(p),
                None => r matches DropAction::LoadBytes { name, bytes, last_modified } && bytes@
                    == files[i].bytes.unwrap()@ && last_modified == files[i].last_modified && (if files[i].name@.len()
                    == 0 {
                    name is None
                } else {
                    name matches Some(n) && n@ == files[i].name@
                }),
            }
    }
}

/// What to load from the files dropped in one frame.
pub fn choose_drop_action(files: Vec<DroppedFile>) -> (r: DropAction)
    ensures
        drop_action_ok(files@, r),
{
    if files.len() == 0 {
        return DropAction::Nothing;
    }
    let ghost all = files@;
    let mut i: usize = 0;
    while i < files.len()
        invariant
            files@ == all,
            i <= files@.len(),
            forall|j: int| 0 <= j < i ==> !readable(#[trigger] files@[j]),
        ensures
            files@ == all,
            i <= files@.len(),
            forall|j: int| 0 <= j < i ==> !readable(#[trigger] files@[j]),
            i < files@.len() ==> readable(files@[i as int]),
        decreases files.len() - i,
    {
        if files[i].path.is_some() || files[i].bytes.is_some() {
            break;
        }
        i = i + 1;
    }
    if i == files.len() {
        return DropAction::FailNoReadable;
    }
    let mut files = files;
    let f = files.remove(i);
    assert(f == all[i as int]);
    assert(readable(all[i as int]));
    let DroppedFile { path, name, bytes, last_modified } = f;
    match path {
        Some(p) => DropAction::LoadPath(p),
        None => {
            let data = match bytes {
                Some(b) => b,
                None => Vec::new(),
            };
            let name = if name.as_str().is_empty() {
                None
            } else {
                Some(name)
            };
            DropAction::LoadBytes { name, bytes: data, last_modified }
        },
    }
}

pub open spec fn drop_failed_message_spec(lang: UiLanguage) -> Seq<char> {
    match lang {
        UiLanguage::En => "Drop failed: no readable bytes/path"@,
        UiLanguage::Ru => "Не удалось обработать перетаскивание: нет читаемого пути/байтов"@,
    }
}

/// Status shown when nothing dropped could be read.
pub fn drop_failed_message(lang: UiLanguage) -> (r: &'static str)
    ensures
        r@ == drop_failed_message_spec(lang),
{
    match lang {
        UiLanguage::En => "Drop failed: no readable bytes/path",
        UiLanguage::Ru => "Не удалось обработать перетаскивание: нет читаемого пути/байтов",
    }
}

} // verus!
