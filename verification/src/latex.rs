use vstd::prelude::*;

use crate::commands::{plan1, plan3, Action, ActionView};
use crate::config::{config_view, Toml, TomlView};
use crate::text;

verus! {

/// The typeset-document subcommands.
pub enum Commands {
    /// Create a new document project.
    New { file_name: String },
    /// Open a document by shortened notation.
    Open { file_name: String },
    /// Remove a document.
    Rm { project_name: String },
}

/// Where a document lives: the documents directory, a `/`, and the name
/// with the default document extension applied.
pub open spec fn latex_path_spec(doc_dir: Seq<char>, file_name: Seq<char>) -> Seq<char> {
    doc_dir + "/"@ + text::with_default_ext_spec(file_name, "tex"@)
}

/// Composes the path of a document under the documents directory.
pub fn latex_path(doc_dir: &str, file_name: &String) -> (r: String)
    ensures
        r@ == latex_path_spec(doc_dir@, file_name@),
{
    let normalized = text::with_default_extension(file_name.as_str(), "tex");
    text::concat3(doc_dir, "/", normalized.as_str())
}

/// Creating a document project: refused while the configuration is missing
/// or the target already exists; otherwise the scaffolding tool runs,
/// success is reported, and the new main source file opens in the editor.
pub open spec fn latex_new_spec(
    file_name: Seq<char>,
    config: Result<TomlView, Seq<char>>,
    exists: bool,
) -> Seq<ActionView> {
    match config {
        Err(e) => seq![ActionView::Fail { message: e }],
        Ok(c) => {
            let path = c.dev + "/Rust/"@ + file_name;
            if exists {
                seq![ActionView::Fail { message: "File '"@ + file_name + "' already exists"@ }]
            } else {
                seq![
                    ActionView::Run { program: "cargo"@, args: seq!["-q"@, "new"@, path] },
                    ActionView::Print {
                        message: "File '"@ + file_name + "' created successfully"@,
                    },
                    ActionView::Editor { path: path + "/src/main.rs"@ },
                ]
            }
        },
    }
}

/// Plans the creation of a document project. The target lives under the
/// development directory's project subtree, as the create command lays
/// projects out.
pub fn latex_new(file_name: &String, config: &Result<Toml, String>, exists: bool) -> (r: Vec<
    Action,
>)
    ensures
        r.deep_view() == latex_new_spec(file_name@, config_view(config), exists),
{
    match config {
        Err(e) => plan1(Action::Fail { message: e.clone() }),
        Ok(c) => {
            let path = text::concat3(c.dev.as_str(), "/Rust/", file_name.as_str());
            if exists {
                plan1(
                    Action::Fail {
                        message: text::concat3("File '", file_name.as_str(), "' already exists"),
                    },
                )
            } else {
                let mut args: Vec<String> = Vec::new();
                args.push("-q".to_owned());
                args.push("new".to_owned());
                args.push(path.clone());
                proof {
                    assert(args.deep_view() =~= seq!["-q"@, "new"@, path@]);
                }
                plan3(
                    Action::Run { program: "cargo".to_owned(), args },
                    Action::Print {
                        message: text::concat3(
                            "File '",
                            file_name.as_str(),
                            "' created successfully",
                        ),
                    },
                    Action::Editor { path: text::concat2(path.as_str(), "/src/main.rs") },
                )
            }
        },
    }
}

/// Opening a document: the editor on the trimmed path when it exists, an
/// error naming the composed path otherwise.
pub open spec fn latex_open_spec(
    file_name: Seq<char>,
    config: Result<TomlView, Seq<char>>,
    doc_dir: Seq<char>,
    exists: bool,
) -> Seq<ActionView> {
    match config {
        Err(e) => seq![ActionView::Fail { message: e }],
        Ok(c) => {
            let full = latex_path_spec(doc_dir, file_name);
            if exists {
                seq![ActionView::Editor { path: text::trim_spec(full) }]
            } else {
                seq![ActionView::Fail { message: "Latex file not found: '"@ + full + "'"@ }]
            }
        },
    }
}

/// Plans the opening of a document under the documents directory the
/// caller supplies. The plan holds the editor launch alone: no preview
/// step follows it, since no previewer command is defined to run.
pub fn latex_open(
    file_name: &String,
    config: &Result<Toml, String>,
    doc_dir: &String,
    exists: bool,
) -> (r: Vec<Action>)
    ensures
        r.deep_view() == latex_open_spec(file_name@, config_view(config), doc_dir@, exists),
{
    match config {
        Err(e) => plan1(Action::Fail { message: e.clone() }),
        Ok(_) => {
            let full = latex_path(doc_dir.as_str(), file_name);
            match crate::verify_filename_decision(full.as_str(), exists) {
                Some(name) => plan1(Action::Editor { path: name.to_owned() }),
                None => plan1(
                    Action::Fail {
                        message: text::concat3("Latex file not found: '", full.as_str(), "'"),
                    },
                ),
            }
        },
    }
}

/// Removing a document: refused while the configuration is missing or the
/// target does not exist; otherwise the user is asked to confirm before
/// the trimmed path is removed.
pub open spec fn latex_remove_spec(
    file_name: Seq<char>,
    config: Result<TomlView, Seq<char>>,
    doc_dir: Seq<char>,
    exists: bool,
) -> Seq<ActionView> {
    match config {
        Err(e) => seq![ActionView::Fail { message: e }],
        Ok(c) => {
            let path = doc_dir + "/"@ + file_name;
            if exists {
                seq![
                    ActionView::ConfirmRemove {
                        detail: "remove "@ + file_name,
                        path: text::trim_spec(path),
                    },
                ]
            } else {
                seq![ActionView::Fail { message: "Project not found: '"@ + path + "'"@ }]
            }
        },
    }
}

/// Plans the removal of a document: nothing is removed here; the plan asks
/// for confirmation first. The name is taken as given, without extension
/// normalization.
pub fn latex_remove(
    file_name: &String,
    config: &Result<Toml, String>,
    doc_dir: &String,
    exists: bool,
) -> (r: Vec<Action>)
    ensures
        r.deep_view() == latex_remove_spec(file_name@, config_view(config), doc_dir@, exists),
{
    match config {
        Err(e) => plan1(Action::Fail { message: e.clone() }),
        Ok(_) => {
            let path = text::concat3(doc_dir.as_str(), "/", file_name.as_str());
            match crate::verify_filename_decision(path.as_str(), exists) {
                Some(name) => plan1(
                    Action::ConfirmRemove {
                        detail: text::concat2("remove ", file_name.as_str()),
                        path: name.to_owned(),
                    },
                ),
                None => plan1(
                    Action::Fail {
                        message: text::concat3("Project not found: '", path.as_str(), "'"),
                    },
                ),
            }
        },
    }
}

/// Reports a finished removal: success names the removed path; a failure
/// carries the underlying cause.
pub fn remove_report(path: &String, error: &Option<String>) -> (r: Action)
    ensures
        match error {
            None => r@ == (ActionView::Print { message: "Successfully deleted "@ + path@ }),
            Some(e) => r@ == (ActionView::Fail {
                message: "Could not remove latex file '"@ + path@ + "': "@ + e@,
            }),
        },
{
    match error {
        None => Action::Print { message: text::concat2("Successfully deleted ", path.as_str()) },
        Some(e) => Action::Fail {
            message: text::concat4(
                "Could not remove latex file '",
                path.as_str(),
                "': ",
                e.as_str(),
            ),
        },
    }
}

/// The plan of a document subcommand.
pub open spec fn latex_plan_spec(
    command: Commands,
    config: Result<TomlView, Seq<char>>,
    doc_dir: Seq<char>,
    exists: bool,
) -> Seq<ActionView> {
    match command {
        Commands::New { file_name } => latex_new_spec(file_name@, config, exists),
        Commands::Open { file_name } => latex_open_spec(file_name@, config, doc_dir, exists),
        Commands::Rm { project_name } => latex_remove_spec(project_name@, config, doc_dir, exists),
    }
}

/// Maps a document subcommand to its plan.
pub fn parse_command(
    command: &Commands,
    config: &Result<Toml, String>,
    doc_dir: &String,
    exists: bool,
) -> (r: Vec<Action>)
    ensures
        r.deep_view() == latex_plan_spec(*command, config_view(config), doc_dir@, exists),
{
    match command {
        Commands::New { file_name } => latex_new(file_name, config, exists),
        Commands::Open { file_name } => latex_open(file_name, config, doc_dir, exists),
        Commands::Rm { project_name } => latex_remove(project_name, config, doc_dir, exists),
    }
}

} // verus!
