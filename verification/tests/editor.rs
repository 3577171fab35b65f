use noteiser::config::Toml;
use noteiser::get_editor;

fn full_config() -> Toml {
    Toml {
        dev: "/d".to_string(),
        editor: Some("emacs".to_string()),
        editor_backup: Some("nano".to_string()),
        note: None,
    }
}

#[test]
fn cli_override_wins() {
    let r = get_editor(
        &Some("vim".to_string()),
        &Some(full_config()),
        &Some("ed".to_string()),
    );
    assert_eq!(r, Some("vim".to_string()));
}

#[test]
fn config_primary_is_second() {
    let r = get_editor(&None, &Some(full_config()), &Some("ed".to_string()));
    assert_eq!(r, Some("emacs".to_string()));
}

#[test]
fn config_backup_is_third() {
    let mut c = full_config();
    c.editor = None;
    let r = get_editor(&None, &Some(c), &Some("ed".to_string()));
    assert_eq!(r, Some("nano".to_string()));
}

#[test]
fn environment_is_last() {
    let r = get_editor(&None, &None, &Some("ed".to_string()));
    assert_eq!(r, Some("ed".to_string()));
}

#[test]
fn environment_backs_an_empty_config() {
    let mut c = full_config();
    c.editor = None;
    c.editor_backup = None;
    let r = get_editor(&None, &Some(c), &Some("ed".to_string()));
    assert_eq!(r, Some("ed".to_string()));
}

#[test]
fn nothing_left_is_fatal() {
    assert_eq!(get_editor(&None, &None, &None), None);
}
