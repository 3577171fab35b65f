use noteiser::note::check_extension;
use noteiser::text::{file_name_part_exec, has_extension_exec, str_eq, trim,
    with_default_extension};

#[test]
fn default_extension_is_appended() {
    assert_eq!(check_extension(&"todo".to_string()), "todo.txt");
}

#[test]
fn present_extension_is_kept() {
    assert_eq!(check_extension(&"todo.md".to_string()), "todo.md");
}

#[test]
fn normalizing_twice_changes_nothing() {
    let once = check_extension(&"todo".to_string());
    let twice = check_extension(&once);
    assert_eq!(once, twice);
    let kept = check_extension(&"todo.md".to_string());
    assert_eq!(check_extension(&kept), kept);
}

#[test]
fn leading_dot_is_no_extension() {
    assert_eq!(check_extension(&".gitignore".to_string()), ".gitignore.txt");
}

#[test]
fn trailing_dot_counts_as_extension() {
    assert_eq!(check_extension(&"todo.".to_string()), "todo.");
}

#[test]
fn extension_looks_at_final_component() {
    assert!(has_extension_exec("a.b/c.d"));
    assert!(!has_extension_exec("a.b/c"));
    assert!(!has_extension_exec(".."));
}

#[test]
fn trailing_separators_are_ignored() {
    assert!(has_extension_exec("todo.txt/"));
    assert_eq!(check_extension(&"todo.txt/".to_string()), "todo.txt/");
    assert!(!has_extension_exec("dir/"));
    assert_eq!(check_extension(&"dir/".to_string()), "dir/.txt");
    assert_eq!(file_name_part_exec("/usr/bin/"), "bin");
    assert_eq!(file_name_part_exec("///"), "");
    assert_eq!(file_name_part_exec("plain"), "plain");
}

#[test]
fn current_dir_components_are_ignored() {
    assert_eq!(file_name_part_exec("foo.txt/."), "foo.txt");
    assert!(has_extension_exec("foo.txt/."));
    assert_eq!(check_extension(&"foo.txt/.".to_string()), "foo.txt/.");
    assert_eq!(file_name_part_exec("a/./."), "a");
    assert_eq!(file_name_part_exec("."), "");
    assert_eq!(file_name_part_exec(".//"), "");
}

#[test]
fn parent_component_names_nothing() {
    assert_eq!(file_name_part_exec(".."), "");
    assert_eq!(file_name_part_exec("a/.."), "");
    assert!(!has_extension_exec("a/.."));
    assert_eq!(check_extension(&"..".to_string()), "...txt");
    assert_eq!(file_name_part_exec("..."), "...");
    assert!(has_extension_exec("..."));
}

#[test]
fn other_defaults_apply_too() {
    assert_eq!(with_default_extension("main", "rs"), "main.rs");
    assert_eq!(with_default_extension("main.rs", "rs"), "main.rs");
    assert_eq!(with_default_extension("paper", "tex"), "paper.tex");
}

#[test]
fn trim_removes_edges_only() {
    assert_eq!(trim("  a b  "), "a b");
    assert_eq!(trim("\t\nx\r "), "x");
    assert_eq!(trim(""), "");
    assert_eq!(trim(" \t "), "");
    assert_eq!(trim("inner"), "inner");
}

#[test]
fn str_eq_compares_contents() {
    assert!(str_eq("abc", "abc"));
    assert!(!str_eq("abc", "abd"));
    assert!(!str_eq("abc", "ab"));
    assert!(str_eq("", ""));
}
