use vstd::prelude::*;
use vstd::string::StringExecFns;

pub mod commands;
pub mod config;
pub mod latex;
pub mod note;
pub mod pattern;
pub mod rust;
pub mod text;

use crate::config::{Toml, TomlView};

verus! {

/// The parsed command line: an optional editor override and the chosen
/// command.
pub struct Cli {
    /// A specific editor to use, overriding every configured one.
    pub editor: Option<String>,
    /// The command to dispatch.
    pub command: commands::Commands,
}

/// Exit status for generic failures: invalid input, missing files,
/// configuration errors.
pub const EXIT_ERROR: i32 = 0x1000;

/// Exit status used when the user declines a confirmation prompt, kept
/// distinct from `EXIT_ERROR` so calling scripts can tell refusal apart
/// from error.
pub const EXIT_DECLINED: i32 = 0x1001;

/// Relies on `std::path::Path::canonicalize`: it succeeds exactly when the
/// path resolves, following symlinks, to an existing filesystem entry at
/// the moment of the call. The answer depends on the filesystem, so
/// nothing is promised of it.
#[verifier::external_body]
pub(crate) fn path_exists(filename: &str) -> bool {
    std::path::Path::new(filename).canonicalize().is_ok()
}

/// The admission gate's decision for a given existence answer: the trimmed
/// path exactly when the check succeeded, nothing otherwise.
pub fn verify_filename_decision<'a>(filename: &'a str, exists: bool) -> (r: Option<&'a str>)
    ensures
        exists ==> (r matches Some(s) && s@ == text::trim_spec(filename@)),
        !exists ==> r is None,
{
    if exists {
        Some(text::trim(filename))
    } else {
        None
    }
}

/// Returns the trimmed path when it refers to an existing filesystem
/// entry at the moment of the check, and nothing otherwise. Absence is
/// the normal negative answer, not a failure. This is the sole admission
/// gate between a user-typed string and a path handed to a subprocess.
pub fn verify_filename(filename: &str) -> (r: Option<&str>)
    ensures
        r matches Some(s) ==> s@ == text::trim_spec(filename@),
{
    verify_filename_decision(filename, path_exists(filename))
}

/// The decision behind `verify_file_and_dir`, for given existence answers:
/// the composed path when directory and file both exist, and otherwise the
/// error naming what was missing.
pub fn verify_file_and_dir_decision(
    filename: &str,
    directory: &str,
    dir_exists: bool,
    file_exists: bool,
) -> (r: Result<String, String>)
    ensures
        dir_exists && file_exists ==> (r matches Ok(p) && p@ == directory@ + "/"@ + filename@),
        dir_exists && !file_exists ==> (r matches Err(e) && e@ == "File not found"@),
        !dir_exists ==> (r matches Err(e) && e@ == "Directory not found"@),
{
    if dir_exists {
        if file_exists {
            Ok(text::concat3(directory, "/", filename))
        } else {
            Err("File not found".to_owned())
        }
    } else {
        Err("Directory not found".to_owned())
    }
}

/// Composes `directory/filename` and verifies both: the composed path when
/// directory and file exist, an error naming what was missing otherwise.
/// A missing directory is an error value here; the dispatcher decides to
/// terminate on it.
pub fn verify_file_and_dir(filename: &str, directory: &str) -> (r: Result<String, String>)
    ensures
        r matches Ok(p) ==> p@ == directory@ + "/"@ + filename@,
        r matches Err(e) ==> e@ == "File not found"@ || e@ == "Directory not found"@,
{
    let full_path = text::concat3(directory, "/", filename);
    match verify_filename(directory) {
        Some(_) => match verify_filename(full_path.as_str()) {
            Some(_) => Ok(full_path),
            None => Err("File not found".to_owned()),
        },
        None => Err("Directory not found".to_owned()),
    }
}

/// The fixed editor precedence: the command-line override, then the
/// configuration's primary editor, then its backup, then the environment's
/// editor; nothing when all four are absent.
pub open spec fn editor_choice(
    cli_editor: Option<Seq<char>>,
    config: Option<TomlView>,
    env_editor: Option<Seq<char>>,
) -> Option<Seq<char>> {
    match cli_editor {
        Some(e) => Some(e),
        None => match config {
            Some(c) => match c.editor {
                Some(e) => Some(e),
                None => match c.editor_backup {
                    Some(e) => Some(e),
                    None => env_editor,
                },
            },
            None => env_editor,
        },
    }
}

/// Resolves the editor to launch by the fixed precedence; `None` means no
/// editor is available, which the dispatcher treats as fatal. A missing
/// configuration file falls through to the environment's editor.
pub fn get_editor(
    cli_editor: &Option<String>,
    config: &Option<Toml>,
    env_editor: &Option<String>,
) -> (r: Option<String>)
    ensures
        r.deep_view() == editor_choice(
            cli_editor.deep_view(),
            match config {
                Some(c) => Some(c@),
                None => None,
            },
            env_editor.deep_view(),
        ),
{
    if let Some(cli_ed) = cli_editor {
        return Some(cli_ed.clone());
    }
    if let Some(conf) = config {
        if let Some(e) = &conf.editor {
            return Some(e.clone());
        }
        if let Some(e) = &conf.editor_backup {
            return Some(e.clone());
        }
    }
    match env_editor {
        Some(e) => Some(e.clone()),
        None => None,
    }
}

/// The listing's body: one line per file, each a tab followed by the name.
pub open spec fn listing_lines(files: Seq<Seq<char>>) -> Seq<char>
    decreases files.len(),
{
    if files.len() == 0 {
        Seq::<char>::empty()
    } else {
        listing_lines(files.drop_last()) + "\t"@ + files.last() + "\n"@
    }
}

/// The listing a directory's contents produce: a header naming the
/// directory, one line per file, trimmed at the ends.
pub open spec fn listing_message(directory: Seq<char>, files: Seq<Seq<char>>) -> Seq<char> {
    text::trim_spec("Contents of '"@ + directory + "':\n"@ + listing_lines(files))
}

/// Renders a directory listing: a header naming the directory and one
/// indented line per file.
pub fn list_files(directory: &String, files: &Vec<String>) -> (r: String)
    ensures
        r@ == listing_message(directory@, files.deep_view()),
{
    let mut message = text::concat3("Contents of '", directory.as_str(), "':\n");
    let ghost all = files.deep_view();
    let mut i: usize = 0;
    while i < files.len()
        invariant
            i <= files.len(),
            all == files.deep_view(),
            message@ == "Contents of '"@ + directory@ + "':\n"@ + listing_lines(
                all.subrange(0, i as int),
            ),
        decreases files.len() - i,
    {
        let ghost prefix = all.subrange(0, i as int);
        message.append("\t");
        message.append(files[i].as_str());
        message.append("\n");
        proof {
            let longer = all.subrange(0, i + 1);
            assert(longer.drop_last() =~= prefix);
            assert(message@ == "Contents of '"@ + directory@ + "':\n"@ + listing_lines(longer));
        }
        i = i + 1;
    }
    proof {
        assert(all.subrange(0, files.len() as int) =~= all);
    }
    text::trim(message.as_str()).to_owned()
}

/// Renders the listing of the files that the pattern matches; `None`
/// exactly when the pattern does not compile, which is never shown to the
/// user.
pub fn list_matching_files(directory: &String, regex_string: &str, files: &Vec<String>) -> (r:
    Option<String>)
    ensures
        r is Some <==> pattern::regex_valid(regex_string@),
        r matches Some(m) ==> m@ == listing_message(
            directory@,
            pattern::matching(regex_string@, files.deep_view()),
        ),
{
    match pattern::filter_matching(files, regex_string) {
        Some(kept) => Some(list_files(directory, &kept)),
        None => None,
    }
}

} // verus!
