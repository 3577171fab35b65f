use vstd::prelude::*;
use vstd::string::StringExecFns;

use crate::commands::{plan1, plan2, Action, ActionView};
use crate::text;

verus! {

/// The configuration file's contents: the base development directory, an
/// optional editor and backup editor, and an optional notes directory.
#[derive(Debug, Clone)]
pub struct Toml {
    pub dev: String,
    pub editor: Option<String>,
    pub editor_backup: Option<String>,
    pub note: Option<String>,
}

/// The mathematical value of a configuration.
pub ghost struct TomlView {
    pub dev: Seq<char>,
    pub editor: Option<Seq<char>>,
    pub editor_backup: Option<Seq<char>>,
    pub note: Option<Seq<char>>,
}

impl View for Toml {
    type V = TomlView;

    open spec fn view(&self) -> TomlView {
        TomlView {
            dev: self.dev@,
            editor: self.editor.deep_view(),
            editor_backup: self.editor_backup.deep_view(),
            note: self.note.deep_view(),
        }
    }
}

/// The mathematical value of a loaded-or-missing configuration.
pub open spec fn config_view(config: &Result<Toml, String>) -> Result<TomlView, Seq<char>> {
    match config {
        Ok(c) => Ok(c@),
        Err(e) => Err(e@),
    }
}

/// The configuration subcommands.
pub enum Commands {
    /// Show the loaded configuration.
    Get,
    /// Open the configuration file in the editor.
    Open,
    /// Create the configuration directory and open it.
    Setup,
}

/// The configuration file's location under the home directory.
pub open spec fn config_path_spec(home: Seq<char>) -> Seq<char> {
    home + "/.config/noteiser/config.toml"@
}

/// Composes the configuration file's path under the home directory.
pub fn config_path(home: &str) -> (r: String)
    ensures
        r@ == config_path_spec(home@),
{
    text::concat2(home, "/.config/noteiser/config.toml")
}

/// The configuration directory under the home directory.
pub open spec fn config_dir_spec(home: Seq<char>) -> Seq<char> {
    home + "/.config/noteiser"@
}

/// Composes the configuration directory's path under the home directory.
pub fn config_dir(home: &str) -> (r: String)
    ensures
        r@ == config_dir_spec(home@),
{
    text::concat2(home, "/.config/noteiser")
}

/// Composes the configuration file's path and verifies that it exists:
/// the trimmed path when it does, nothing when it is absent, which the
/// dispatcher reports as a missing configuration directory.
pub fn get_dir(home: &str) -> (r: Option<String>)
    ensures
        r matches Some(p) ==> p@ == text::trim_spec(config_path_spec(home@)),
{
    let path_string = config_path(home);
    match crate::verify_filename(path_string.as_str()) {
        Some(_) => Some(text::trim(path_string.as_str()).to_owned()),
        None => None,
    }
}

/// The decision behind `get_dir`, for a given existence answer: the trimmed
/// configuration path exactly when the file exists.
pub fn get_dir_decision(home: &str, exists: bool) -> (r: Option<String>)
    ensures
        exists ==> (r matches Some(p) && p@ == text::trim_spec(config_path_spec(home@))),
        !exists ==> r is None,
{
    if exists {
        let path_string = config_path(home);
        Some(text::trim(path_string.as_str()).to_owned())
    } else {
        None
    }
}

/// A single line describing one optional field, for the configuration
/// display: `name: value` or `name: (unset)`.
pub open spec fn field_line_spec(name: Seq<char>, value: Option<Seq<char>>) -> Seq<char> {
    match value {
        Some(v) => name + ": "@ + v,
        None => name + ": (unset)"@,
    }
}

fn field_line(name: &str, value: &Option<String>) -> (r: String)
    ensures
        r@ == field_line_spec(name@, value.deep_view()),
{
    match value {
        Some(v) => text::concat3(name, ": ", v.as_str()),
        None => text::concat2(name, ": (unset)"),
    }
}

/// The loaded configuration, one field per line, as the `get` subcommand
/// shows it.
pub open spec fn describe_spec(c: TomlView) -> Seq<char> {
    "dev: "@ + c.dev + "\n"@ + field_line_spec("editor"@, c.editor) + "\n"@ + field_line_spec(
        "editor_backup"@,
        c.editor_backup,
    ) + "\n"@ + field_line_spec("note"@, c.note)
}

impl Toml {
    /// Renders the configuration, one field per line.
    pub fn describe(&self) -> (r: String)
        ensures
            r@ == describe_spec(self@),
    {
        let mut r = text::concat3("dev: ", self.dev.as_str(), "\n");
        r.append(field_line("editor", &self.editor).as_str());
        r.append("\n");
        r.append(field_line("editor_backup", &self.editor_backup).as_str());
        r.append("\n");
        r.append(field_line("note", &self.note).as_str());
        r
    }
}

/// Opening the configuration file in the editor: the trimmed configuration
/// path when the file exists, a failure otherwise.
pub open spec fn open_in_editor_spec(home: Seq<char>, config_file_exists: bool) -> Seq<
    ActionView,
> {
    if config_file_exists {
        seq![ActionView::Editor { path: text::trim_spec(config_path_spec(home)) }]
    } else {
        seq![ActionView::Fail { message: "Couldn't find config directory"@ }]
    }
}

/// Plans the opening of the configuration file in the editor.
pub fn open_in_editor(home: &str, config_file_exists: bool) -> (r: Vec<Action>)
    ensures
        r.deep_view() == open_in_editor_spec(home@, config_file_exists),
{
    match get_dir_decision(home, config_file_exists) {
        Some(path) => plan1(Action::Editor { path }),
        None => plan1(Action::Fail { message: "Couldn't find config directory".to_owned() }),
    }
}

/// The plan of a configuration subcommand: no subcommand or `open` opens
/// the configuration file; `get` shows the loaded configuration; `setup`
/// refuses to overwrite an existing file, and otherwise creates the
/// configuration directory and opens it.
pub open spec fn config_plan_spec(
    command: Option<Commands>,
    home: Seq<char>,
    config_file_exists: bool,
    config: Result<TomlView, Seq<char>>,
) -> Seq<ActionView> {
    match command {
        None => open_in_editor_spec(home, config_file_exists),
        Some(Commands::Open) => open_in_editor_spec(home, config_file_exists),
        Some(Commands::Get) => match config {
            Ok(c) => seq![ActionView::Print { message: describe_spec(c) }],
            Err(e) => seq![ActionView::Fail { message: e }],
        },
        Some(Commands::Setup) => match config {
            Ok(_) => seq![ActionView::Fail { message: "Config file already exists"@ }],
            Err(_) => seq![
                ActionView::Run {
                    program: "mkdir"@,
                    args: seq!["-p"@, config_dir_spec(home)],
                },
                ActionView::Editor { path: config_dir_spec(home) },
            ],
        },
    }
}

/// Maps a configuration subcommand to its plan.
pub fn parse_command(
    command: &Option<Commands>,
    home: &str,
    config_file_exists: bool,
    config: &Result<Toml, String>,
) -> (r: Vec<Action>)
    ensures
        r.deep_view() == config_plan_spec(*command, home@, config_file_exists, config_view(config)),
{
    match command {
        None => open_in_editor(home, config_file_exists),
        Some(Commands::Open) => open_in_editor(home, config_file_exists),
        Some(Commands::Get) => match config {
            Ok(c) => plan1(Action::Print { message: c.describe() }),
            Err(e) => plan1(Action::Fail { message: e.clone() }),
        },
        Some(Commands::Setup) => match config {
            Ok(_) => plan1(Action::Fail { message: "Config file already exists".to_owned() }),
            Err(_) => {
                let dir = config_dir(home);
                let mut args: Vec<String> = Vec::new();
                args.push("-p".to_owned());
                args.push(dir.clone());
                proof {
                    assert(args.deep_view() =~= seq!["-p"@, config_dir_spec(home@)]);
                }
                plan2(
                    Action::Run { program: "mkdir".to_owned(), args },
                    Action::Editor { path: dir },
                )
            },
        },
    }
}

} // verus!
