use std::collections::HashSet;
use std::iter::FromIterator;

use fui::feeders::{add_glob, page_entries, DirItems, Feeder};

#[test]
fn test_glob_is_added_ok() {
    assert_eq!(add_glob(""), "*");
    assert_eq!(add_glob("/"), "/*");
    assert_eq!(add_glob("/home/"), "/home/*");
    assert_eq!(add_glob("/home/user/xxx"), "/home/user/*xxx*");
    assert_eq!(add_glob("/home/user/*xxx"), "/home/user/*xxx");
    assert_eq!(add_glob("/home/user/xxx*"), "/home/user/xxx*");
    assert_eq!(add_glob("**/xxx"), "**/*xxx*");
    assert_eq!(add_glob("**/*xxx"), "**/*xxx");
    assert_eq!(add_glob("**/xxx*"), "**/xxx*");
}

#[test]
fn test_dir_item_works_with_root_subdir() {
    let di = DirItems::new();
    let found = di.query("/root/", 0, 100);
    assert_eq!(HashSet::<String>::from_iter(found), HashSet::<String>::new());
}

#[test]
fn test_dir_item_works_with_top_missing_dir() {
    let di = DirItems::new();
    let found = di.query("/missing-dir", 0, 10);
    assert_eq!(HashSet::<String>::from_iter(found), HashSet::<String>::new());
}

#[test]
fn test_dir_item_works_with_broken_glob() {
    let di = DirItems::new();
    let found = di.query("**.", 0, 10);
    assert_eq!(HashSet::<String>::from_iter(found), HashSet::<String>::new());
}

fn fruit() -> Vec<String> {
    vec![
        "apple".to_string(),
        "apricot".to_string(),
        "Banana".to_string(),
        "cherry".to_string(),
    ]
}

#[test]
fn list_feeder_respects_items_count() {
    let items = fruit();
    assert!(items.query("", 0, 2).len() <= 2);
    assert!(items.query("a", 0, 0).is_empty());
    assert!(items.query("zzz", 0, 10).is_empty());
}

#[test]
fn list_feeder_empty_text_keeps_order() {
    let items = fruit();
    assert_eq!(items.query("", 0, 3), vec!["apple", "apricot", "Banana"]);
    assert_eq!(items.query("", 0, 100), fruit());
}

#[test]
fn list_feeder_filters_case_insensitively() {
    let items = fruit();
    assert_eq!(items.query("AP", 0, 10), vec!["apple", "apricot"]);
    assert_eq!(items.query("banana", 0, 10), vec!["Banana"]);
    assert_eq!(items.query("RR", 0, 10), vec!["cherry"]);
}

#[test]
fn dir_feeder_is_deterministic() {
    let di = DirItems::new();
    let first = di.query("", 0, 100);
    let second = di.query("", 0, 100);
    assert_eq!(
        HashSet::<String>::from_iter(first),
        HashSet::<String>::from_iter(second)
    );
}

#[test]
fn dir_feeder_uppercase_text_is_case_sensitive() {
    let di = DirItems::new();
    assert_eq!(di.query("/Root", 0, 10), Vec::<String>::new());
    assert!(di.query("/root", 0, 10).contains(&"/root".to_string()));
}

#[test]
fn dir_feeder_full_paths_are_absolute() {
    let di = DirItems::new().use_full_paths();
    let found = di.query("src/lib", 0, 10);
    assert_eq!(found.len(), 1);
    assert!(found[0].starts_with('/'));
    assert!(found[0].ends_with("src/lib.rs"));
    assert_ne!(found[0], "src/lib.rs");
}

#[test]
fn dir_feeder_expands_home() {
    let di = DirItems::new().with_home("/root");
    let found = di.query("~", 0, 10);
    assert!(found.contains(&"/root".to_string()));
}

#[test]
fn dir_feeder_dirs_only() {
    let di = DirItems::dirs();
    let found = di.query("src", 0, 10);
    assert_eq!(found, vec!["src".to_string()]);
    let none = di.query("src/lib", 0, 10);
    assert_eq!(none, Vec::<String>::new());
}

#[test]
fn dir_feeder_offset_skips() {
    let di = DirItems::new();
    let all = di.query("", 0, 100);
    let skipped = di.query("", 1, 100);
    assert_eq!(skipped.len() + 1, all.len());
}

#[test]
fn page_entries_filters_maps_and_pages() {
    let entries: Vec<String> = vec!["a".into(), "b".into(), "c".into(), "d".into()];
    let all = vec![true, true, true, true];
    let identity: Vec<Option<String>> = entries.iter().map(|e| Some(e.clone())).collect();

    // Default configuration: a plain window of the entries.
    assert_eq!(page_entries(&entries, &all, &identity, 0, 10), entries);
    assert_eq!(page_entries(&entries, &all, &identity, 1, 2), vec!["b".to_string(), "c".to_string()]);
    assert_eq!(page_entries(&entries, &all, &identity, 4, 2), Vec::<String>::new());
    assert_eq!(page_entries(&entries, &all, &identity, 9, 2), Vec::<String>::new());

    // Kind filter: only approved entries, in order, then paging.
    let keep = vec![true, false, true, true];
    assert_eq!(
        page_entries(&entries, &keep, &identity, 0, 10),
        vec!["a".to_string(), "c".to_string(), "d".to_string()]
    );
    assert_eq!(page_entries(&entries, &keep, &identity, 1, 1), vec!["c".to_string()]);

    // A failed mapping drops only that entry; a successful one renames it.
    let mapped: Vec<Option<String>> =
        vec![Some("/a".into()), Some("/b".into()), None, Some("/d".into())];
    assert_eq!(
        page_entries(&entries, &all, &mapped, 0, 10),
        vec!["/a".to_string(), "/b".to_string(), "/d".to_string()]
    );
}
