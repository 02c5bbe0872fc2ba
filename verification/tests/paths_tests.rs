use ultiserve::paths::{extension_of, is_root_path, raw_url_of, trim_end_slashes,
    trim_start_slashes};
use ultiserve::text::{str_eq, str_lt};

#[test]
fn extension_simple() {
    assert_eq!(extension_of("a/b.rs"), Some("rs".to_string()));
    assert_eq!(extension_of("notes.txt"), Some("txt".to_string()));
}

#[test]
fn extension_none_without_dot() {
    assert_eq!(extension_of("foo"), None);
    assert_eq!(extension_of("a/b/c"), None);
}

#[test]
fn extension_hidden_file_has_none() {
    assert_eq!(extension_of(".bashrc"), None);
    assert_eq!(extension_of("dir/.hidden"), None);
}

#[test]
fn extension_takes_last_dot() {
    assert_eq!(extension_of("a.tar.gz"), Some("gz".to_string()));
}

#[test]
fn extension_ignores_dot_in_directory() {
    assert_eq!(extension_of("dir.d/file"), None);
}

#[test]
fn extension_trailing_dot_is_empty() {
    assert_eq!(extension_of("x."), Some(String::new()));
}

#[test]
fn trim_start_removes_all_leading_slashes() {
    assert_eq!(trim_start_slashes("//a/b"), "a/b");
    assert_eq!(trim_start_slashes("/"), "");
    assert_eq!(trim_start_slashes("a"), "a");
}

#[test]
fn trim_end_removes_all_trailing_slashes() {
    assert_eq!(trim_end_slashes("/a/b//"), "/a/b");
    assert_eq!(trim_end_slashes("/"), "");
    assert_eq!(trim_end_slashes("a"), "a");
}

#[test]
fn root_path_is_exactly_one_slash() {
    assert!(is_root_path("/"));
    assert!(!is_root_path("/a"));
    assert!(!is_root_path(""));
    assert!(!is_root_path("//"));
}

#[test]
fn raw_url_appends_query() {
    assert_eq!(raw_url_of("/a/b.txt"), "/a/b.txt?raw=true");
}

#[test]
fn string_order_is_by_code_point() {
    assert!(str_lt("a", "b"));
    assert!(!str_lt("b", "a"));
    assert!(str_lt("a", "ab"));
    assert!(!str_lt("a", "a"));
    assert!(str_lt("A", "a"));
    assert!(str_lt("", "a"));
}

#[test]
fn string_equality_by_content() {
    assert!(str_eq("abc", "abc"));
    assert!(!str_eq("abc", "abd"));
    assert!(!str_eq("abc", "ab"));
    assert!(str_eq("", ""));
}
