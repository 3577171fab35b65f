use noteiser::commands::Action;
use noteiser::config::{get_dir_decision, parse_command, Commands, Toml};

fn loaded() -> Result<Toml, String> {
    Ok(Toml {
        dev: "/d".to_string(),
        editor: Some("emacs".to_string()),
        editor_backup: None,
        note: Some("/notes".to_string()),
    })
}

#[test]
fn config_path_is_verified_before_use() {
    assert_eq!(
        get_dir_decision("/home/u", true),
        Some("/home/u/.config/noteiser/config.toml".to_string())
    );
    assert_eq!(get_dir_decision("/home/u", false), None);
}

#[test]
fn missing_home_has_no_config_dir() {
    assert_eq!(noteiser::config::get_dir("/surely-not-a-real-home-zqx"), None);
}

#[test]
fn no_subcommand_opens_the_config() {
    let plan = parse_command(&None, "/home/u", true, &loaded());
    assert_eq!(
        plan,
        vec![Action::Editor { path: "/home/u/.config/noteiser/config.toml".to_string() }]
    );
}

#[test]
fn open_fails_without_a_config_file() {
    let plan = parse_command(&Some(Commands::Open), "/home/u", false, &loaded());
    assert_eq!(
        plan,
        vec![Action::Fail { message: "Couldn't find config directory".to_string() }]
    );
}

#[test]
fn get_shows_every_field() {
    let plan = parse_command(&Some(Commands::Get), "/home/u", true, &loaded());
    assert_eq!(
        plan,
        vec![Action::Print {
            message: "dev: /d\neditor: emacs\neditor_backup: (unset)\nnote: /notes".to_string(),
        }]
    );
}

#[test]
fn get_reports_a_missing_config() {
    let plan = parse_command(
        &Some(Commands::Get),
        "/home/u",
        false,
        &Err("Config file not found: gone".to_string()),
    );
    assert_eq!(plan, vec![Action::Fail { message: "Config file not found: gone".to_string() }]);
}

#[test]
fn setup_refuses_to_overwrite() {
    let plan = parse_command(&Some(Commands::Setup), "/home/u", true, &loaded());
    assert_eq!(plan, vec![Action::Fail { message: "Config file already exists".to_string() }]);
}

#[test]
fn setup_creates_the_directory_and_opens_it() {
    let plan = parse_command(
        &Some(Commands::Setup),
        "/home/u",
        false,
        &Err("Config file not found: gone".to_string()),
    );
    assert_eq!(
        plan,
        vec![
            Action::Run {
                program: "mkdir".to_string(),
                args: vec!["-p".to_string(), "/home/u/.config/noteiser".to_string()],
            },
            Action::Editor { path: "/home/u/.config/noteiser".to_string() },
        ]
    );
}
