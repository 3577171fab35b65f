use noteiser::config::{config_dir, config_path};
use noteiser::latex::latex_path;
use noteiser::note::note_path;
use noteiser::rust::rust_path;

#[test]
fn project_file_path_composes() {
    assert_eq!(
        rust_path("/d", &"foo".to_string(), &Some("main".to_string())),
        "/d/Rust/foo/src/main.rs"
    );
}

#[test]
fn bare_project_path_composes() {
    assert_eq!(rust_path("/d", &"foo".to_string(), &None), "/d/Rust/foo");
}

#[test]
fn project_file_keeps_its_extension() {
    assert_eq!(
        rust_path("/d", &"foo".to_string(), &Some("lib.rs".to_string())),
        "/d/Rust/foo/src/lib.rs"
    );
}

#[test]
fn note_path_normalizes() {
    assert_eq!(note_path("/notes", &"todo".to_string()), "/notes/todo.txt");
    assert_eq!(note_path("/notes", &"todo.md".to_string()), "/notes/todo.md");
}

#[test]
fn document_path_normalizes() {
    assert_eq!(latex_path("/docs", &"paper".to_string()), "/docs/paper.tex");
    assert_eq!(latex_path("/docs", &"paper.tex".to_string()), "/docs/paper.tex");
}

#[test]
fn config_paths_hang_off_home() {
    assert_eq!(config_path("/home/u"), "/home/u/.config/noteiser/config.toml");
    assert_eq!(config_dir("/home/u"), "/home/u/.config/noteiser");
}
