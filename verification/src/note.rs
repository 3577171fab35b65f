use vstd::prelude::*;

use crate::commands::{plan1, plan2, print_lines, print_lines_spec, Action, ActionView};
use crate::config::{config_view, Toml, TomlView};
use crate::text;

verus! {

/// The note-taking subcommands.
pub enum Commands {
    /// Create a new note.
    New { file_name: String },
    /// Open a note.
    Open { file_name: String },
    /// List the files in the notes directory.
    List,
}

/// Appends the default note extension, `txt`, when the name has none.
pub fn check_extension(filename: &String) -> (r: String)
    ensures
        r@ == text::with_default_ext_spec(filename@, "txt"@),
{
    text::with_default_extension(filename.as_str(), "txt")
}

/// Normalizing a note's name twice gives the same result as normalizing it
/// once, for every non-empty name not ending in `/`.
pub proof fn lemma_check_extension_idempotent(filename: Seq<char>)
    requires
        filename.len() > 0,
        filename.last() != '/',
    ensures
        text::with_default_ext_spec(text::with_default_ext_spec(filename, "txt"@), "txt"@)
            == text::with_default_ext_spec(filename, "txt"@),
{
    reveal_strlit("txt");
    assert("txt"@.len() == 3);
    assert("txt"@[0] == 't' && "txt"@[1] == 'x' && "txt"@[2] == 't');
    assert(forall|k: int| 0 <= k < "txt"@.len() ==> "txt"@[k] != '/');
    text::lemma_with_default_ext_idempotent(filename, "txt"@);
}

/// Where a note lives: the notes directory, a `/`, and the normalized name.
pub open spec fn note_path_spec(note_dir: Seq<char>, filename: Seq<char>) -> Seq<char> {
    note_dir + "/"@ + text::with_default_ext_spec(filename, "txt"@)
}

/// Composes the path of a note under the notes directory.
pub fn note_path(note_dir: &str, filename: &String) -> (r: String)
    ensures
        r@ == note_path_spec(note_dir@, filename@),
{
    let checked = check_extension(filename);
    text::concat3(note_dir, "/", checked.as_str())
}

/// Creating a note: refused while the configuration is missing, the notes
/// directory is unset or absent, or the note already exists; otherwise the
/// file is created and opened in the editor.
pub open spec fn note_new_spec(
    filename: Seq<char>,
    config: Result<TomlView, Seq<char>>,
    dir_exists: bool,
    file_exists: bool,
) -> Seq<ActionView> {
    match config {
        Err(e) => seq![ActionView::Fail { message: e }],
        Ok(c) => match c.note {
            None => seq![ActionView::Fail { message: "No notes directory set"@ }],
            Some(dir) => {
                let path = note_path_spec(dir, filename);
                if !dir_exists {
                    seq![ActionView::Fail { message: "Directory not found"@ }]
                } else if file_exists {
                    seq![ActionView::Fail { message: "Note '"@ + path + "' already exists"@ }]
                } else {
                    seq![
                        ActionView::CreateFile { path: path },
                        ActionView::Editor { path: path },
                    ]
                }
            },
        },
    }
}

/// Plans the creation of a note. An existing note is reported as an error
/// and nothing is overwritten or opened.
pub fn note_new(
    filename: &String,
    config: &Result<Toml, String>,
    dir_exists: bool,
    file_exists: bool,
) -> (r: Vec<Action>)
    ensures
        r.deep_view() == note_new_spec(filename@, config_view(config), dir_exists, file_exists),
{
    match config {
        Err(e) => plan1(Action::Fail { message: e.clone() }),
        Ok(c) => match &c.note {
            None => plan1(Action::Fail { message: "No notes directory set".to_owned() }),
            Some(dir) => {
                let path = note_path(dir.as_str(), filename);
                if !dir_exists {
                    plan1(Action::Fail { message: "Directory not found".to_owned() })
                } else if file_exists {
                    plan1(
                        Action::Fail {
                            message: text::concat3("Note '", path.as_str(), "' already exists"),
                        },
                    )
                } else {
                    plan2(
                        Action::CreateFile { path: path.clone() },
                        Action::Editor { path },
                    )
                }
            },
        },
    }
}

/// Opening a note: the editor on the note's path when the notes directory
/// and the note exist; a missing note is named as a note error; a missing
/// directory is its own, bare error.
pub open spec fn note_open_spec(
    filename: Seq<char>,
    config: Result<TomlView, Seq<char>>,
    dir_exists: bool,
    file_exists: bool,
) -> Seq<ActionView> {
    match config {
        Err(e) => seq![ActionView::Fail { message: e }],
        Ok(c) => match c.note {
            None => seq![ActionView::Fail { message: "No notes directory set"@ }],
            Some(dir) => {
                if dir_exists && file_exists {
                    seq![ActionView::Editor { path: note_path_spec(dir, filename) }]
                } else if dir_exists {
                    seq![ActionView::Fail { message: "Note error: "@ + "File not found"@ }]
                } else {
                    seq![ActionView::Fail { message: "Directory not found"@ }]
                }
            },
        },
    }
}

/// Plans the opening of a note.
pub fn note_open(
    filename: &String,
    config: &Result<Toml, String>,
    dir_exists: bool,
    file_exists: bool,
) -> (r: Vec<Action>)
    ensures
        r.deep_view() == note_open_spec(filename@, config_view(config), dir_exists, file_exists),
{
    match config {
        Err(e) => plan1(Action::Fail { message: e.clone() }),
        Ok(c) => match &c.note {
            None => plan1(Action::Fail { message: "No notes directory set".to_owned() }),
            Some(dir) => {
                if !dir_exists {
                    plan1(Action::Fail { message: "Directory not found".to_owned() })
                } else {
                    let checked = check_extension(filename);
                    match crate::verify_file_and_dir_decision(
                        checked.as_str(),
                        dir.as_str(),
                        true,
                        file_exists,
                    ) {
                        Ok(path) => plan1(Action::Editor { path }),
                        Err(e) => plan1(
                            Action::Fail { message: text::concat2("Note error: ", e.as_str()) },
                        ),
                    }
                }
            },
        },
    }
}

/// Listing the notes: a header naming the notes directory's final
/// component, then one line per file.
pub open spec fn note_list_spec(config: Result<TomlView, Seq<char>>, files: Seq<Seq<char>>) -> Seq<
    ActionView,
> {
    match config {
        Err(e) => seq![ActionView::Fail { message: e }],
        Ok(c) => match c.note {
            None => seq![ActionView::Fail { message: "No notes directory set"@ }],
            Some(dir) => {
                let short = text::file_name_part(dir);
                if short.len() == 0 {
                    seq![ActionView::Fail { message: "Could not get name of notes directory"@ }]
                } else {
                    seq![ActionView::Print { message: short + "/"@ }] + print_lines_spec(files)
                }
            },
        },
    }
}

/// Plans the listing of the notes directory, whose contents the caller
/// supplies.
pub fn note_list(config: &Result<Toml, String>, files: &Vec<String>) -> (r: Vec<Action>)
    ensures
        r.deep_view() == note_list_spec(config_view(config), files.deep_view()),
{
    match config {
        Err(e) => plan1(Action::Fail { message: e.clone() }),
        Ok(c) => match &c.note {
            None => plan1(Action::Fail { message: "No notes directory set".to_owned() }),
            Some(dir) => {
                let short = text::file_name_part_exec(dir.as_str());
                if short.unicode_len() == 0 {
                    plan1(
                        Action::Fail {
                            message: "Could not get name of notes directory".to_owned(),
                        },
                    )
                } else {
                    let mut r = plan1(Action::Print { message: text::concat2(short, "/") });
                    let mut lines = print_lines(files);
                    r.append(&mut lines);
                    proof {
                        assert(r.deep_view() =~= seq![
                            ActionView::Print { message: text::file_name_part(dir@) + "/"@ },
                        ] + print_lines_spec(files.deep_view()));
                    }
                    r
                }
            },
        },
    }
}

/// The plan of a note subcommand.
pub open spec fn note_plan_spec(
    command: Commands,
    config: Result<TomlView, Seq<char>>,
    dir_exists: bool,
    file_exists: bool,
    files: Seq<Seq<char>>,
) -> Seq<ActionView> {
    match command {
        Commands::New { file_name } => note_new_spec(file_name@, config, dir_exists, file_exists),
        Commands::Open { file_name } => note_open_spec(
            file_name@,
            config,
            dir_exists,
            file_exists,
        ),
        Commands::List => note_list_spec(config, files),
    }
}

/// Maps a note subcommand to its plan.
pub fn parse_command(
    command: &Commands,
    config: &Result<Toml, String>,
    dir_exists: bool,
    file_exists: bool,
    files: &Vec<String>,
) -> (r: Vec<Action>)
    ensures
        r.deep_view() == note_plan_spec(
            *command,
            config_view(config),
            dir_exists,
            file_exists,
            files.deep_view(),
        ),
{
    match command {
        Commands::New { file_name } => note_new(file_name, config, dir_exists, file_exists),
        Commands::Open { file_name } => note_open(file_name, config, dir_exists, file_exists),
        Commands::List => note_list(config, files),
    }
}

} // verus!
