use curcat::dropped::{choose_drop_action, drop_failed_message, DropAction, DroppedFile};
use curcat::i18n::UiLanguage;
use std::path::PathBuf;

fn file(path: Option<&str>, name: &str, bytes: Option<Vec<u8>>) -> DroppedFile {
    DroppedFile {
        path: path.map(PathBuf::from),
        name: name.to_string(),
        bytes,
        last_modified: None,
    }
}

#[test]
fn drops_load_the_first_readable_file() {
    assert!(matches!(choose_drop_action(vec![]), DropAction::Nothing));
    let action = choose_drop_action(vec![
        file(None, "empty", None),
        file(None, "", Some(vec![1, 2])),
        file(Some("/x.png"), "x", None),
    ]);
    match action {
        DropAction::LoadBytes { name, bytes, .. } => {
            assert_eq!(name, None);
            assert_eq!(bytes, vec![1, 2]);
        }
        _ => panic!("expected bytes"),
    }
    let action = choose_drop_action(vec![file(Some("/a/b.png"), "b.png", Some(vec![9]))]);
    assert!(matches!(action, DropAction::LoadPath(p) if p == PathBuf::from("/a/b.png")));
    let action = choose_drop_action(vec![file(None, "n", None)]);
    assert!(matches!(action, DropAction::FailNoReadable));
    assert_eq!(drop_failed_message(UiLanguage::En), "Drop failed: no readable bytes/path");
}
