use noteiser::commands::{after_confirm, match_command, run_editor_decision, Action, Commands, Env};
use noteiser::config::Toml;
use noteiser::{latex, note, rust, Cli};

fn config_with_notes() -> Result<Toml, String> {
    Ok(Toml {
        dev: "/d".to_string(),
        editor: Some("emacs".to_string()),
        editor_backup: None,
        note: Some("/notes".to_string()),
    })
}

#[test]
fn new_note_is_created_and_opened() {
    let plan = note::note_new(&"todo".to_string(), &config_with_notes(), true, false);
    assert_eq!(
        plan,
        vec![
            Action::CreateFile { path: "/notes/todo.txt".to_string() },
            Action::Editor { path: "/notes/todo.txt".to_string() },
        ]
    );
}

#[test]
fn existing_note_is_not_recreated() {
    let plan = note::note_new(&"todo".to_string(), &config_with_notes(), true, true);
    assert_eq!(
        plan,
        vec![Action::Fail { message: "Note '/notes/todo.txt' already exists".to_string() }]
    );
}

#[test]
fn note_without_directory_fails() {
    let config = Ok(Toml {
        dev: "/d".to_string(),
        editor: None,
        editor_backup: None,
        note: None,
    });
    let plan = note::note_new(&"todo".to_string(), &config, true, false);
    assert_eq!(plan, vec![Action::Fail { message: "No notes directory set".to_string() }]);
}

#[test]
fn note_open_reports_missing_file() {
    let plan = note::note_open(&"todo".to_string(), &config_with_notes(), true, false);
    assert_eq!(plan, vec![Action::Fail { message: "Note error: File not found".to_string() }]);
}

#[test]
fn note_open_reports_missing_directory_bare() {
    let plan = note::note_open(&"todo".to_string(), &config_with_notes(), false, false);
    assert_eq!(plan, vec![Action::Fail { message: "Directory not found".to_string() }]);
}

#[test]
fn note_open_launches_on_present_file() {
    let plan = note::note_open(&"todo".to_string(), &config_with_notes(), true, true);
    assert_eq!(plan, vec![Action::Editor { path: "/notes/todo.txt".to_string() }]);
}

#[test]
fn missing_config_message_is_carried() {
    let config: Result<Toml, String> = Err("Config file not found: gone".to_string());
    let plan = note::note_open(&"todo".to_string(), &config, true, true);
    assert_eq!(plan, vec![Action::Fail { message: "Config file not found: gone".to_string() }]);
}

#[test]
fn remove_asks_before_anything_happens() {
    let plan = rust::rust_remove(&"foo".to_string(), &config_with_notes(), true);
    assert_eq!(
        plan,
        vec![Action::ConfirmRemove {
            detail: "remove foo".to_string(),
            path: "/d/Rust/foo".to_string(),
        }]
    );
}

#[test]
fn declined_removal_changes_nothing() {
    let step = after_confirm(&Some("n".to_string()), &"/d/Rust/foo".to_string());
    assert_eq!(step, Action::Declined);
}

#[test]
fn confirmed_removal_proceeds() {
    let step = after_confirm(&Some("Y".to_string()), &"/d/Rust/foo".to_string());
    assert_eq!(step, Action::RemoveDir { path: "/d/Rust/foo".to_string() });
}

#[test]
fn removal_outcome_is_reported() {
    let ok = rust::remove_report(&"/d/Rust/foo".to_string(), &None);
    assert_eq!(ok, Action::Print { message: "Successfully deleted /d/Rust/foo".to_string() });
    let err = rust::remove_report(&"/d/Rust/foo".to_string(), &Some("busy".to_string()));
    assert_eq!(
        err,
        Action::Fail { message: "Could not remove project '/d/Rust/foo': busy".to_string() }
    );
    let lerr = latex::remove_report(&"/docs/p.tex".to_string(), &Some("busy".to_string()));
    assert_eq!(
        lerr,
        Action::Fail { message: "Could not remove latex file '/docs/p.tex': busy".to_string() }
    );
}

#[test]
fn missing_project_cannot_be_removed() {
    let plan = rust::rust_remove(&"foo".to_string(), &config_with_notes(), false);
    assert_eq!(plan, vec![Action::Fail { message: "Project not found: '/d/Rust/foo'".to_string() }]);
}

#[test]
fn new_project_is_scaffolded() {
    let plan = rust::rust_new(&"foo".to_string(), &config_with_notes(), false);
    assert_eq!(
        plan,
        vec![
            Action::Run {
                program: "cargo".to_string(),
                args: vec!["-q".to_string(), "new".to_string(), "/d/Rust/foo".to_string()],
            },
            Action::Print { message: "Project 'foo' created successfully".to_string() },
            Action::Editor { path: "/d/Rust/foo/src/main.rs".to_string() },
        ]
    );
}

#[test]
fn existing_project_is_not_recreated() {
    let plan = rust::rust_new(&"foo".to_string(), &config_with_notes(), true);
    assert_eq!(
        plan,
        vec![Action::Fail { message: "Project 'foo' already exists".to_string() }]
    );
}

#[test]
fn project_open_uses_the_composed_path() {
    let plan = rust::rust_open(
        &"foo".to_string(),
        &Some("main".to_string()),
        &config_with_notes(),
        true,
    );
    assert_eq!(plan, vec![Action::Editor { path: "/d/Rust/foo/src/main.rs".to_string() }]);
    let missing = rust::rust_open(&"foo".to_string(), &None, &config_with_notes(), false);
    assert_eq!(
        missing,
        vec![Action::Fail { message: "Project or File not found: '/d/Rust/foo'".to_string() }]
    );
}

#[test]
fn document_open_normalizes_and_verifies() {
    let plan = latex::latex_open(
        &"paper".to_string(),
        &config_with_notes(),
        &"/docs".to_string(),
        true,
    );
    assert_eq!(plan, vec![Action::Editor { path: "/docs/paper.tex".to_string() }]);
    let missing = latex::latex_open(
        &"paper".to_string(),
        &config_with_notes(),
        &"/docs".to_string(),
        false,
    );
    assert_eq!(
        missing,
        vec![Action::Fail { message: "Latex file not found: '/docs/paper.tex'".to_string() }]
    );
}

#[test]
fn new_document_project_is_scaffolded() {
    let plan = latex::latex_new(&"paper".to_string(), &config_with_notes(), false);
    assert_eq!(
        plan,
        vec![
            Action::Run {
                program: "cargo".to_string(),
                args: vec!["-q".to_string(), "new".to_string(), "/d/Rust/paper".to_string()],
            },
            Action::Print { message: "File 'paper' created successfully".to_string() },
            Action::Editor { path: "/d/Rust/paper/src/main.rs".to_string() },
        ]
    );
}

#[test]
fn existing_document_project_is_not_recreated() {
    let plan = latex::latex_new(&"paper".to_string(), &config_with_notes(), true);
    assert_eq!(plan, vec![Action::Fail { message: "File 'paper' already exists".to_string() }]);
}

#[test]
fn document_removal_asks_first() {
    let plan = latex::latex_remove(
        &"paper.tex".to_string(),
        &config_with_notes(),
        &"/docs".to_string(),
        true,
    );
    assert_eq!(
        plan,
        vec![Action::ConfirmRemove {
            detail: "remove paper.tex".to_string(),
            path: "/docs/paper.tex".to_string(),
        }]
    );
    let missing = latex::latex_remove(
        &"paper.tex".to_string(),
        &config_with_notes(),
        &"/docs".to_string(),
        false,
    );
    assert_eq!(
        missing,
        vec![Action::Fail { message: "Project not found: '/docs/paper.tex'".to_string() }]
    );
}

#[test]
fn editor_launch_verifies_first() {
    let launch = run_editor_decision(" /a/file ", true);
    assert_eq!(launch, Action::Editor { path: "/a/file".to_string() });
    let missing = run_editor_decision("/a/file", false);
    assert_eq!(
        missing,
        Action::Fail { message: "Editor could not find file '/a/file'".to_string() }
    );
}

#[test]
fn dispatch_plans_a_note_command() {
    let cli = Cli {
        editor: None,
        command: Commands::Note {
            command: note::Commands::New { file_name: "todo".to_string() },
        },
    };
    let env = Env {
        config: config_with_notes(),
        home: "/home/u".to_string(),
        doc_dir: "/docs".to_string(),
        target_exists: false,
        dir_exists: true,
        files: vec![],
        sub_files: vec![],
    };
    let plan = match_command(&cli, &env).expect("fixed patterns compile");
    assert_eq!(
        plan,
        vec![
            Action::CreateFile { path: "/notes/todo.txt".to_string() },
            Action::Editor { path: "/notes/todo.txt".to_string() },
        ]
    );
}

#[test]
fn dispatch_opens_a_plain_file() {
    let cli = Cli {
        editor: None,
        command: Commands::Open { file_name: "/etc/hosts".to_string() },
    };
    let env = Env {
        config: Err("Config file not found: gone".to_string()),
        home: "/home/u".to_string(),
        doc_dir: "/docs".to_string(),
        target_exists: true,
        dir_exists: true,
        files: vec![],
        sub_files: vec![],
    };
    let plan = match_command(&cli, &env).expect("nothing to compile");
    assert_eq!(plan, vec![Action::Editor { path: "/etc/hosts".to_string() }]);
}
