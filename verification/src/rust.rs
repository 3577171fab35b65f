use vstd::prelude::*;
use vstd::string::StringExecFns;

use crate::commands::{plan1, plan2, plan3, print_lines, print_lines_spec, Action, ActionView};
use crate::config::{config_view, Toml, TomlView};
use crate::pattern;
use crate::text;

verus! {

/// The project subcommands.
pub enum Commands {
    /// Create a new project.
    New { project_name: String },
    /// Open a project, or one of its source files, by shortened notation.
    Open { project_name: String, file_name: Option<String> },
    /// List a project's files, or the projects themselves.
    List { all: bool, project_name: Option<String> },
    /// Remove a project.
    Rm { project_name: String },
}

/// Where a project, or one of its source files, lives: the development
/// directory's project subtree, then the name alone or `name/src/<file>`
/// with the default source extension applied.
pub open spec fn rust_path_spec(
    dev: Seq<char>,
    project_name: Seq<char>,
    file_name: Option<Seq<char>>,
) -> Seq<char> {
    match file_name {
        None => dev + "/Rust/"@ + project_name,
        Some(f) => dev + "/Rust/"@ + project_name + "/src/"@ + text::with_default_ext_spec(
            f,
            "rs"@,
        ),
    }
}

/// Composes the path of a project, or of one of its source files, under
/// the development directory.
pub fn rust_path(dev: &str, project_name: &String, file_name: &Option<String>) -> (r: String)
    ensures
        r@ == rust_path_spec(dev@, project_name@, file_name.deep_view()),
{
    match file_name {
        None => text::concat3(dev, "/Rust/", project_name.as_str()),
        Some(f) => {
            let normalized = text::with_default_extension(f.as_str(), "rs");
            let mut r = text::concat3(dev, "/Rust/", project_name.as_str());
            r.append("/src/");
            r.append(normalized.as_str());
            r
        },
    }
}

/// Creating a project: refused while the configuration is missing or the
/// project already exists; otherwise the scaffolding tool runs, success is
/// reported, and the new main source file opens in the editor.
pub open spec fn rust_new_spec(
    project_name: Seq<char>,
    config: Result<TomlView, Seq<char>>,
    exists: bool,
) -> Seq<ActionView> {
    match config {
        Err(e) => seq![ActionView::Fail { message: e }],
        Ok(c) => {
            let path = c.dev + "/Rust/"@ + project_name;
            if exists {
                seq![
                    ActionView::Fail {
                        message: "Project '"@ + project_name + "' already exists"@,
                    },
                ]
            } else {
                seq![
                    ActionView::Run { program: "cargo"@, args: seq!["-q"@, "new"@, path] },
                    ActionView::Print {
                        message: "Project '"@ + project_name + "' created successfully"@,
                    },
                    ActionView::Editor { path: path + "/src/main.rs"@ },
                ]
            }
        },
    }
}

/// Plans the creation of a project. An existing project is reported as an
/// error and nothing is overwritten.
pub fn rust_new(project_name: &String, config: &Result<Toml, String>, exists: bool) -> (r: Vec<
    Action,
>)
    ensures
        r.deep_view() == rust_new_spec(project_name@, config_view(config), exists),
{
    match config {
        Err(e) => plan1(Action::Fail { message: e.clone() }),
        Ok(c) => {
            let path = rust_path(c.dev.as_str(), project_name, &None);
            if exists {
                plan1(
                    Action::Fail {
                        message: text::concat3(
                            "Project '",
                            project_name.as_str(),
                            "' already exists",
                        ),
                    },
                )
            } else {
                let mut args: Vec<String> = Vec::new();
                args.push("-q".to_owned());
                args.push("new".to_owned());
                args.push(path.clone());
                proof {
                    assert(args.deep_view() =~= seq!["-q"@, "new"@, path@]);
                }
                plan3(
                    Action::Run { program: "cargo".to_owned(), args },
                    Action::Print {
                        message: text::concat3(
                            "Project '",
                            project_name.as_str(),
                            "' created successfully",
                        ),
                    },
                    Action::Editor { path: text::concat2(path.as_str(), "/src/main.rs") },
                )
            }
        },
    }
}

/// Opening a project or one of its files: the editor on the trimmed path
/// when it exists, an error naming the composed path otherwise.
pub open spec fn rust_open_spec(
    project_name: Seq<char>,
    file_name: Option<Seq<char>>,
    config: Result<TomlView, Seq<char>>,
    exists: bool,
) -> Seq<ActionView> {
    match config {
        Err(e) => seq![ActionView::Fail { message: e }],
        Ok(c) => {
            let full = rust_path_spec(c.dev, project_name, file_name);
            if exists {
                seq![ActionView::Editor { path: text::trim_spec(full) }]
            } else {
                seq![
                    ActionView::Fail { message: "Project or File not found: '"@ + full + "'"@ },
                ]
            }
        },
    }
}

/// Plans the opening of a project or of one of its source files.
pub fn rust_open(
    project_name: &String,
    file_name: &Option<String>,
    config: &Result<Toml, String>,
    exists: bool,
) -> (r: Vec<Action>)
    ensures
        r.deep_view() == rust_open_spec(
            project_name@,
            file_name.deep_view(),
            config_view(config),
            exists,
        ),
{
    match config {
        Err(e) => plan1(Action::Fail { message: e.clone() }),
        Ok(c) => {
            let full = rust_path(c.dev.as_str(), project_name, file_name);
            match crate::verify_filename_decision(full.as_str(), exists) {
                Some(name) => plan1(Action::Editor { path: name.to_owned() }),
                None => plan1(
                    Action::Fail {
                        message: text::concat3("Project or File not found: '", full.as_str(), "'"),
                    },
                ),
            }
        },
    }
}

/// The files kept in a listing: those differing from both excluded names.
pub open spec fn excluding(files: Seq<Seq<char>>, a: Seq<char>, b: Seq<char>) -> Seq<Seq<char>>
    decreases files.len(),
{
    if files.len() == 0 {
        Seq::<Seq<char>>::empty()
    } else if files.last() == a || files.last() == b {
        excluding(files.drop_last(), a, b)
    } else {
        excluding(files.drop_last(), a, b).push(files.last())
    }
}

/// Drops the files bearing either excluded name.
fn excluding_exec(files: &Vec<String>, a: &str, b: &str) -> (r: Vec<String>)
    ensures
        r.deep_view() == excluding(files.deep_view(), a@, b@),
{
    let mut out: Vec<String> = Vec::new();
    let ghost all = files.deep_view();
    let mut i: usize = 0;
    while i < files.len()
        invariant
            i <= files.len(),
            all == files.deep_view(),
            out.deep_view() == excluding(all.subrange(0, i as int), a@, b@),
        decreases files.len() - i,
    {
        let ghost prefix = all.subrange(0, i as int);
        let skip = text::str_eq(files[i].as_str(), a) || text::str_eq(files[i].as_str(), b);
        if !skip {
            out.push(files[i].clone());
            proof {
                assert(out.deep_view() =~= excluding(prefix, a@, b@).push(all[i as int]));
            }
        }
        proof {
            let longer = all.subrange(0, i + 1);
            assert(longer.drop_last() =~= prefix);
            assert(longer.last() == all[i as int]);
        }
        i = i + 1;
    }
    proof {
        assert(all.subrange(0, files.len() as int) =~= all);
    }
    out
}

/// The listing of one directory and one subdirectory: each header's
/// `Print`, followed by one line per file.
pub open spec fn listing_plan_spec(
    header1: Seq<char>,
    root: Seq<Seq<char>>,
    header2: Seq<char>,
    subs: Seq<Seq<char>>,
) -> Seq<ActionView> {
    seq![ActionView::Print { message: header1 }] + print_lines_spec(root) + seq![
        ActionView::Print { message: header2 },
    ] + print_lines_spec(subs)
}

fn listing_plan(header1: String, root: &Vec<String>, header2: String, subs: &Vec<String>) -> (r:
    Vec<Action>)
    ensures
        r.deep_view() == listing_plan_spec(header1@, root.deep_view(), header2@, subs.deep_view()),
{
    let mut r = plan1(Action::Print { message: header1 });
    let mut a = print_lines(root);
    r.append(&mut a);
    r.push(Action::Print { message: header2 });
    let mut b = print_lines(subs);
    r.append(&mut b);
    proof {
        assert(r.deep_view() =~= listing_plan_spec(
            header1@,
            root.deep_view(),
            header2@,
            subs.deep_view(),
        ));
    }
    r
}

/// Whether the listing's patterns all compile, so that a listing plan can
/// be produced at all; the patterns are fixed, so this never fails in a
/// running program.
pub open spec fn rust_list_plannable(
    project_named: bool,
    show_all: bool,
    config_ok: bool,
    dir_exists: bool,
) -> bool {
    if !config_ok {
        true
    } else if project_named {
        !dir_exists || (if show_all {
            pattern::regex_valid(".*"@)
        } else {
            pattern::regex_valid("^[a-zA-Z]"@)
        })
    } else {
        pattern::regex_valid("^[a-zA-Z]"@) && (!show_all || pattern::regex_valid(".*"@))
    }
}

/// Listing a named project: its visible root files, hiding the build and
/// source directories unless everything was asked for, then its source
/// files; without a name, the projects themselves and the scripts beside
/// them.
pub open spec fn rust_list_spec(
    project_name: Option<Seq<char>>,
    show_all: bool,
    config: Result<TomlView, Seq<char>>,
    dir_exists: bool,
    files: Seq<Seq<char>>,
    sub_files: Seq<Seq<char>>,
) -> Seq<ActionView> {
    match config {
        Err(e) => seq![ActionView::Fail { message: e }],
        Ok(c) => match project_name {
            Some(name) => {
                let dir = c.dev + "/Rust/"@ + name;
                if !dir_exists {
                    seq![
                        ActionView::Fail {
                            message: "Development directory not found: '"@ + dir + "'"@,
                        },
                    ]
                } else {
                    let root = if show_all {
                        pattern::matching(".*"@, files)
                    } else {
                        excluding(pattern::matching("^[a-zA-Z]"@, files), "target"@, "src"@)
                    };
                    listing_plan_spec(name + "/"@, root, "\n"@ + name + "/src/"@, sub_files)
                }
            },
            None => {
                let root = excluding(
                    pattern::matching("^[a-zA-Z]"@, files),
                    "Scripts"@,
                    "Scripts"@,
                );
                let scripts = pattern::matching(
                    if show_all {
                        ".*"@
                    } else {
                        "^[a-zA-Z]"@
                    },
                    sub_files,
                );
                listing_plan_spec("Rust/"@, root, "\nRust/Scripts"@, scripts)
            },
        },
    }
}

/// Plans a project listing from the directory contents the caller
/// supplies: `files` for the listed directory, `sub_files` for its source
/// or scripts subdirectory. `None` exactly when a needed pattern does not
/// compile, which is never shown to the user.
pub fn rust_list(
    project_name: &Option<String>,
    show_all: bool,
    config: &Result<Toml, String>,
    dir_exists: bool,
    files: &Vec<String>,
    sub_files: &Vec<String>,
) -> (r: Option<Vec<Action>>)
    ensures
        r is Some <==> rust_list_plannable(
            project_name is Some,
            show_all,
            config is Ok,
            dir_exists,
        ),
        r matches Some(v) ==> v.deep_view() == rust_list_spec(
            project_name.deep_view(),
            show_all,
            config_view(config),
            dir_exists,
            files.deep_view(),
            sub_files.deep_view(),
        ),
{
    match config {
        Err(e) => Some(plan1(Action::Fail { message: e.clone() })),
        Ok(c) => match project_name {
            Some(name) => {
                let dir = rust_path(c.dev.as_str(), name, &None);
                if !dir_exists {
                    Some(plan1(
                        Action::Fail {
                            message: text::concat3(
                                "Development directory not found: '",
                                dir.as_str(),
                                "'",
                            ),
                        },
                    ))
                } else {
                    let root_maybe = if show_all {
                        pattern::filter_matching(files, ".*")
                    } else {
                        match pattern::filter_matching(files, "^[a-zA-Z]") {
                            Some(m) => Some(excluding_exec(&m, "target", "src")),
                            None => None,
                        }
                    };
                    match root_maybe {
                        Some(root) => Some(listing_plan(
                            text::concat2(name.as_str(), "/"),
                            &root,
                            text::concat3("\n", name.as_str(), "/src/"),
                            sub_files,
                        )),
                        None => None,
                    }
                }
            },
            None => {
                match pattern::filter_matching(files, "^[a-zA-Z]") {
                    Some(m) => {
                        let root = excluding_exec(&m, "Scripts", "Scripts");
                        let scripts_maybe = if show_all {
                            pattern::filter_matching(sub_files, ".*")
                        } else {
                            pattern::filter_matching(sub_files, "^[a-zA-Z]")
                        };
                        match scripts_maybe {
                            Some(scripts) => Some(listing_plan(
                                "Rust/".to_owned(),
                                &root,
                                "\nRust/Scripts".to_owned(),
                                &scripts,
                            )),
                            None => None,
                        }
                    },
                    None => None,
                }
            },
        },
    }
}

/// Removing a project: refused while the configuration is missing or the
/// project does not exist; otherwise the user is asked to confirm before
/// the trimmed path is removed.
pub open spec fn rust_remove_spec(
    project_name: Seq<char>,
    config: Result<TomlView, Seq<char>>,
    exists: bool,
) -> Seq<ActionView> {
    match config {
        Err(e) => seq![ActionView::Fail { message: e }],
        Ok(c) => {
            let path = c.dev + "/Rust/"@ + project_name;
            if exists {
                seq![
                    ActionView::ConfirmRemove {
                        detail: "remove "@ + project_name,
                        path: text::trim_spec(path),
                    },
                ]
            } else {
                seq![ActionView::Fail { message: "Project not found: '"@ + path + "'"@ }]
            }
        },
    }
}

/// Plans the removal of a project: nothing is removed here; the plan asks
/// for confirmation first.
pub fn rust_remove(project_name: &String, config: &Result<Toml, String>, exists: bool) -> (r: Vec<
    Action,
>)
    ensures
        r.deep_view() == rust_remove_spec(project_name@, config_view(config), exists),
{
    match config {
        Err(e) => plan1(Action::Fail { message: e.clone() }),
        Ok(c) => {
            let path = rust_path(c.dev.as_str(), project_name, &None);
            match crate::verify_filename_decision(path.as_str(), exists) {
                Some(name) => plan1(
                    Action::ConfirmRemove {
                        detail: text::concat2("remove ", project_name.as_str()),
                        path: name.to_owned(),
                    },
                ),
                None => plan1(
                    Action::Fail {
                        message: text::concat3("Project not found: '", path.as_str(), "'"),
                    },
                ),
            }
        },
    }
}

/// Reports a finished removal: success names the removed path; a failure
/// carries the underlying cause.
pub fn remove_report(path: &String, error: &Option<String>) -> (r: Action)
    ensures
        match error {
            None => r@ == (ActionView::Print { message: "Successfully deleted "@ + path@ }),
            Some(e) => r@ == (ActionView::Fail {
                message: "Could not remove project '"@ + path@ + "': "@ + e@,
            }),
        },
{
    match error {
        None => Action::Print { message: text::concat2("Successfully deleted ", path.as_str()) },
        Some(e) => Action::Fail {
            message: text::concat4(
                "Could not remove project '",
                path.as_str(),
                "': ",
                e.as_str(),
            ),
        },
    }
}

/// The plan of a project subcommand.
pub open spec fn rust_plan_spec(
    command: Commands,
    config: Result<TomlView, Seq<char>>,
    exists: bool,
    dir_exists: bool,
    files: Seq<Seq<char>>,
    sub_files: Seq<Seq<char>>,
) -> Seq<ActionView> {
    match command {
        Commands::New { project_name } => rust_new_spec(project_name@, config, exists),
        Commands::Open { project_name, file_name } => rust_open_spec(
            project_name@,
            file_name.deep_view(),
            config,
            exists,
        ),
        Commands::List { all, project_name } => rust_list_spec(
            project_name.deep_view(),
            all,
            config,
            dir_exists,
            files,
            sub_files,
        ),
        Commands::Rm { project_name } => rust_remove_spec(project_name@, config, exists),
    }
}

/// Whether a project subcommand can be planned at all: only a listing can
/// fail, and only when a fixed pattern does not compile.
pub open spec fn rust_plannable(command: Commands, config_ok: bool, dir_exists: bool) -> bool {
    match command {
        Commands::List { all, project_name } => rust_list_plannable(
            project_name is Some,
            all,
            config_ok,
            dir_exists,
        ),
        _ => true,
    }
}

/// Maps a project subcommand to its plan. Only a listing can fail to be
/// planned, and only when a fixed pattern does not compile.
pub fn parse_command(
    command: &Commands,
    config: &Result<Toml, String>,
    exists: bool,
    dir_exists: bool,
    files: &Vec<String>,
    sub_files: &Vec<String>,
) -> (r: Option<Vec<Action>>)
    ensures
        r is Some <==> rust_plannable(*command, config is Ok, dir_exists),
        r matches Some(v) ==> v.deep_view() == rust_plan_spec(
            *command,
            config_view(config),
            exists,
            dir_exists,
            files.deep_view(),
            sub_files.deep_view(),
        ),
{
    match command {
        Commands::New { project_name } => Some(rust_new(project_name, config, exists)),
        Commands::Open { project_name, file_name } => Some(
            rust_open(project_name, file_name, config, exists),
        ),
        Commands::List { all, project_name } => rust_list(
            project_name,
            *all,
            config,
            dir_exists,
            files,
            sub_files,
        ),
        Commands::Rm { project_name } => Some(rust_remove(project_name, config, exists)),
    }
}

} // verus!
