//! Tests for entry-state computation: path validation, directory
//! resolution and the configuration they are derived from.

use compile_actor::entry::{check_entry_path, parent_dir, CompileConfig, EntryState};

#[test]
fn absolute_and_untitled_paths_are_valid() {
    assert!(check_entry_path(&String::from("/proj/main.typ")));
    assert!(check_entry_path(&String::from("/untitled/1")));
    assert!(check_entry_path(&String::from("/")));
}

#[test]
fn relative_and_empty_paths_are_invalid() {
    assert!(!check_entry_path(&String::from("relative/path.typ")));
    assert!(!check_entry_path(&String::from("main.typ")));
    assert!(!check_entry_path(&String::from("")));
    assert!(!check_entry_path(&String::from("untitled/1")));
}

#[test]
fn parent_dir_splits_at_last_separator() {
    assert_eq!(parent_dir(&String::from("/proj/sub/main.typ")), "/proj/sub");
    assert_eq!(parent_dir(&String::from("/proj/main.typ")), "/proj");
    assert_eq!(parent_dir(&String::from("/main.typ")), "/");
    assert_eq!(parent_dir(&String::from("main.typ")), "");
    assert_eq!(parent_dir(&String::from("/a/b/")), "/a/b");
}

#[test]
fn determine_entry_prefers_configured_root() {
    let config = CompileConfig {
        root_path: Some(String::from("/workspace")),
    };
    let entry = config.determine_entry(Some(String::from("/workspace/ch/one.typ")));
    assert_eq!(entry.root.as_deref(), Some("/workspace"));
    assert_eq!(entry.main.as_deref(), Some("/workspace/ch/one.typ"));
}

#[test]
fn determine_entry_falls_back_to_document_directory() {
    let config = CompileConfig { root_path: None };
    let entry = config.determine_entry(Some(String::from("/docs/book/main.typ")));
    assert_eq!(entry.root.as_deref(), Some("/docs/book"));
    assert_eq!(entry.main.as_deref(), Some("/docs/book/main.typ"));
}

#[test]
fn determine_entry_without_path_is_inactive() {
    let config = CompileConfig {
        root_path: Some(String::from("/workspace")),
    };
    let entry = config.determine_entry(None);
    assert_eq!(entry.root.as_deref(), Some("/workspace"));
    assert!(entry.main.is_none());
}

#[test]
fn entry_states_compare_by_content() {
    let a = EntryState {
        root: Some(String::from("/proj")),
        main: Some(String::from("/proj/main.typ")),
    };
    let b = a.duplicate();
    assert!(a.same_as(&b));
    let c = EntryState {
        root: Some(String::from("/proj")),
        main: None,
    };
    assert!(!a.same_as(&c));
    assert!(!c.same_as(&a));
    let detached = EntryState::detached();
    assert!(detached.root.is_none() && detached.main.is_none());
}
