use cargo_appimage::path::{
    file_name_of, is_absolute_path, join_paths, parent_of, rebase_under, resolve_from,
};

#[test]
fn file_name_is_what_follows_the_last_separator() {
    assert_eq!(file_name_of("/usr/lib/libfoo.so.1"), Some("libfoo.so.1".to_string()));
    assert_eq!(file_name_of("libfoo.so.1"), Some("libfoo.so.1".to_string()));
    assert_eq!(file_name_of("/x"), Some("x".to_string()));
    assert_eq!(file_name_of("/usr/lib/..."), Some("...".to_string()));
}

#[test]
fn path_ending_in_separator_has_no_file_name() {
    assert_eq!(file_name_of("/usr/lib/"), None);
    assert_eq!(file_name_of("/"), None);
    assert_eq!(file_name_of(""), None);
}

#[test]
fn dot_components_are_no_file_names() {
    assert_eq!(file_name_of("/usr/lib/.."), None);
    assert_eq!(file_name_of("/usr/lib/."), None);
    assert_eq!(file_name_of(".."), None);
    assert_eq!(file_name_of("."), None);
}

#[test]
fn parent_is_what_precedes_the_last_separator() {
    assert_eq!(parent_of("/usr/lib/libfoo.so.1"), "/usr/lib");
    assert_eq!(parent_of("/x"), "");
    assert_eq!(parent_of("x"), "");
    assert_eq!(parent_of("/usr/lib/"), "/usr/lib");
    assert_eq!(parent_of("a/b"), "a");
}

#[test]
fn absolute_paths_begin_with_a_separator() {
    assert!(is_absolute_path("/usr"));
    assert!(is_absolute_path("/"));
    assert!(!is_absolute_path("usr/lib"));
    assert!(!is_absolute_path(""));
}

#[test]
fn join_puts_one_separator_between() {
    assert_eq!(join_paths("/a", "b"), "/a/b");
    assert_eq!(join_paths("a", ""), "a/");
    assert_eq!(join_paths("", "b"), "/b");
}

#[test]
fn rebase_keeps_the_whole_path_below_the_root() {
    assert_eq!(rebase_under("/out/app.AppDir", "/usr/lib/libfoo.so.1"), "/out/app.AppDir/usr/lib/libfoo.so.1");
    assert_eq!(rebase_under("root", "/x"), "root/x");
}

#[test]
fn resolve_reads_relative_paths_from_the_base() {
    assert_eq!(resolve_from("/home/u", ".cargo"), "/home/u/.cargo");
    assert_eq!(resolve_from("/home/u", "/opt/cargo"), "/opt/cargo");
    assert_eq!(resolve_from("/work", ""), "/work/");
}

#[test]
fn resolve_without_a_base_gives_the_path_itself() {
    assert_eq!(resolve_from("", ".cargo"), ".cargo");
    assert_eq!(resolve_from("", ""), "");
    assert_eq!(resolve_from("", "/abs"), "/abs");
}

#[test]
fn resolve_adds_no_separator_to_a_base_that_ends_in_one() {
    assert_eq!(resolve_from("/home/u/", ".cargo"), "/home/u/.cargo");
    assert_eq!(resolve_from("/", "usr"), "/usr");
    assert_eq!(resolve_from("dir/", ""), "dir/");
}
