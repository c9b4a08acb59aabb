use std::cmp::Ordering;

use tnet_dispatcher::file_tree::{compare_entries, compare_names, ends_with, is_listed_file, tree_lines, TreeEntry};

fn entry(name: &str, is_directory: bool, indent_level: usize, is_last_in_level: bool) -> TreeEntry {
    TreeEntry { name: name.to_string(), is_directory, indent_level, is_last_in_level }
}

#[test]
fn only_json_and_proc_files_are_listed() {
    assert!(is_listed_file(&"data.json".to_string()));
    assert!(is_listed_file(&"run.proc".to_string()));
    assert!(is_listed_file(&".json".to_string()));
    assert!(!is_listed_file(&"notes.txt".to_string()));
    assert!(!is_listed_file(&"json".to_string()));
    assert!(!is_listed_file(&"a.json.bak".to_string()));
    assert!(!is_listed_file(&"".to_string()));
    assert!(ends_with("abc", ""));
    assert!(!ends_with("", "a"));
}

#[test]
fn names_compare_by_code_point() {
    assert_eq!(compare_names(&"a".to_string(), &"b".to_string()), Ordering::Less);
    assert_eq!(compare_names(&"b".to_string(), &"a".to_string()), Ordering::Greater);
    assert_eq!(compare_names(&"ab".to_string(), &"ab".to_string()), Ordering::Equal);
    assert_eq!(compare_names(&"ab".to_string(), &"abc".to_string()), Ordering::Less);
    assert_eq!(compare_names(&"abc".to_string(), &"ab".to_string()), Ordering::Greater);
    assert_eq!(compare_names(&"Z".to_string(), &"a".to_string()), Ordering::Less);
    assert_eq!(compare_names(&"é".to_string(), &"z".to_string()), Ordering::Greater);
    assert_eq!(compare_names(&"".to_string(), &"".to_string()), Ordering::Equal);
}

#[test]
fn directories_come_before_files() {
    let z = "z".to_string();
    let a = "a".to_string();
    assert_eq!(compare_entries(true, &z, false, &a), Ordering::Less);
    assert_eq!(compare_entries(false, &a, true, &z), Ordering::Greater);
    assert_eq!(compare_entries(true, &a, true, &z), Ordering::Less);
    assert_eq!(compare_entries(false, &z, false, &a), Ordering::Greater);
}

#[test]
fn tree_lines_draw_connectors_and_rules() {
    let entries = vec![
        entry("src", true, 0, false),
        entry("main.json", false, 1, true),
        entry("zeta", true, 0, true),
        entry("run.proc", false, 1, false),
        entry("x.json", false, 1, true),
    ];
    let lines = tree_lines(&entries);
    assert_eq!(
        lines,
        vec![
            "├── src/".to_string(),
            "    └── main.json".to_string(),
            "└── zeta/".to_string(),
            "    ├── run.proc".to_string(),
            "    └── x.json".to_string(),
        ]
    );
}

#[test]
fn tree_lines_with_open_levels() {
    let entries = vec![
        entry("a", true, 0, false),
        entry("b", true, 1, false),
        entry("c.json", false, 2, false),
        entry("d.json", false, 2, true),
    ];
    let lines = tree_lines(&entries);
    assert_eq!(
        lines,
        vec![
            "├── a/".to_string(),
            "│   ├── b/".to_string(),
            "│   │   ├── c.json".to_string(),
            "│   │   └── d.json".to_string(),
        ]
    );
    assert!(tree_lines(&Vec::new()).is_empty());
}
