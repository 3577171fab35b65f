use noteiser::{verify_file_and_dir, verify_file_and_dir_decision, verify_filename,
    verify_filename_decision};

#[test]
fn existing_path_is_verified() {
    // The filesystem root always exists.
    assert_eq!(verify_filename("/"), Some("/"));
}

#[test]
fn missing_path_is_rejected() {
    assert_eq!(verify_filename("/surely-not-a-real-entry-zqx"), None);
}

#[test]
fn verified_path_is_trimmed() {
    assert_eq!(verify_filename_decision("  /some/where  ", true), Some("/some/where"));
    assert_eq!(verify_filename_decision("/some/where", false), None);
}

#[test]
fn decision_trims_whitespace_variants() {
    assert_eq!(verify_filename_decision("\t/a\n", true), Some("/a"));
    assert_eq!(verify_filename_decision("", true), Some(""));
}

#[test]
fn file_and_dir_both_present() {
    // "." under "/" names the root itself, which exists.
    assert_eq!(verify_file_and_dir(".", "/"), Ok("//.".to_string()));
}

#[test]
fn file_missing_in_present_dir() {
    assert_eq!(
        verify_file_and_dir("surely-not-a-real-entry-zqx", "/"),
        Err("File not found".to_string())
    );
}

#[test]
fn dir_missing_is_its_own_error() {
    assert_eq!(
        verify_file_and_dir("x", "/surely-not-a-real-dir-zqx"),
        Err("Directory not found".to_string())
    );
}

#[test]
fn file_and_dir_decision_composes() {
    assert_eq!(
        verify_file_and_dir_decision("todo.txt", "/notes", true, true),
        Ok("/notes/todo.txt".to_string())
    );
    assert_eq!(
        verify_file_and_dir_decision("todo.txt", "/notes", true, false),
        Err("File not found".to_string())
    );
    assert_eq!(
        verify_file_and_dir_decision("todo.txt", "/notes", false, false),
        Err("Directory not found".to_string())
    );
}
