use ultiserve::listing::{build_listing, FileEntry};

fn entry(name: &str, is_dir: bool) -> FileEntry {
    FileEntry { name: name.to_string(), is_dir }
}

#[test]
fn root_listing_sorts_and_decorates() {
    let entries = vec![entry("notes.txt", false), entry("docs", true)];
    let ic = build_listing(entries, "/", None);
    assert_eq!(ic.files.len(), 2);
    assert_eq!(ic.files[0].name, "docs/");
    assert!(ic.files[0].is_dir);
    assert_eq!(ic.files[1].name, "notes.txt");
    assert!(!ic.files[1].is_dir);
    assert!(!ic.has_parent);
    assert_eq!(ic.current_dir, "");
    assert_eq!(ic.full_current_dir, "<unknown>");
}

#[test]
fn listing_keeps_exactly_the_children() {
    let entries = vec![entry("b", false), entry("a", false), entry("c", true)];
    let ic = build_listing(entries, "/sub", Some("/srv/sub".to_string()));
    let names: Vec<&str> = ic.files.iter().map(|e| e.name.as_str()).collect();
    assert_eq!(names, vec!["a", "b", "c/"]);
    assert_eq!(ic.full_current_dir, "/srv/sub");
}

#[test]
fn non_root_path_has_parent() {
    let ic = build_listing(vec![], "/docs/", Some("/srv/docs".to_string()));
    assert!(ic.has_parent);
    assert_eq!(ic.current_dir, "/docs");
}

#[test]
fn sort_is_by_byte_order_not_locale() {
    // 'B' (0x42) sorts before 'a' (0x61) in code-point order.
    let entries = vec![entry("apple", false), entry("Banana", false)];
    let ic = build_listing(entries, "/", None);
    assert_eq!(ic.files[0].name, "Banana");
    assert_eq!(ic.files[1].name, "apple");
}

#[test]
fn equal_names_are_kept() {
    let entries = vec![entry("x", false), entry("x", false)];
    let ic = build_listing(entries, "/", None);
    assert_eq!(ic.files.len(), 2);
    assert_eq!(ic.files[0].name, "x");
    assert_eq!(ic.files[1].name, "x");
}

#[test]
fn empty_directory_lists_nothing() {
    let ic = build_listing(vec![], "/", None);
    assert!(ic.files.is_empty());
    assert!(!ic.has_parent);
}
