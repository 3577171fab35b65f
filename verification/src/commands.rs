use vstd::prelude::*;

use crate::text;
use crate::{config, latex, note, rust};

use crate::config::Toml;

verus! {

/// The top-level subcommands.
pub enum Commands {
    /// Edit or inspect the configuration.
    Config { command: Option<config::Commands> },
    /// Open a file in the editor by its full path.
    Open { file_name: String },
    /// Project functions under the development directory.
    Rust { command: rust::Commands },
    /// Document functions for typeset files.
    Latex { command: latex::Commands },
    /// Note-taking functions.
    Note { command: note::Commands },
}

/// One external effect the dispatcher is asked to perform. The library
/// decides; the surrounding program executes the actions in order,
/// stopping at `Fail` or `Declined`.
#[derive(Debug, PartialEq, Eq, Clone)]
pub enum Action {
    /// Launch the resolved editor on this path, after passing the path
    /// through `run_editor`, which verifies it.
    Editor { path: String },
    /// Run an external program with these arguments, inheriting the
    /// standard streams.
    Run { program: String, args: Vec<String> },
    /// Create a file, and its parent directories, at this path.
    CreateFile { path: String },
    /// Ask the user to confirm `detail`; the answer, handed to
    /// `after_confirm` with `path`, decides whether the removal proceeds.
    ConfirmRemove { detail: String, path: String },
    /// Remove the directory tree at this path; only `after_confirm`
    /// produces this.
    RemoveDir { path: String },
    /// Print a message.
    Print { message: String },
    /// Print a message and exit with `EXIT_ERROR`.
    Fail { message: String },
    /// Exit with `EXIT_DECLINED`, without any change.
    Declined,
}

/// The mathematical value of an `Action`.
pub ghost enum ActionView {
    Editor { path: Seq<char> },
    Run { program: Seq<char>, args: Seq<Seq<char>> },
    CreateFile { path: Seq<char> },
    ConfirmRemove { detail: Seq<char>, path: Seq<char> },
    RemoveDir { path: Seq<char> },
    Print { message: Seq<char> },
    Fail { message: Seq<char> },
    Declined,
}

impl View for Action {
    type V = ActionView;

    open spec fn view(&self) -> ActionView {
        match self {
            Action::Editor { path } => ActionView::Editor { path: path@ },
            Action::Run { program, args } => ActionView::Run {
                program: program@,
                args: args.deep_view(),
            },
            Action::CreateFile { path } => ActionView::CreateFile { path: path@ },
            Action::ConfirmRemove { detail, path } => ActionView::ConfirmRemove {
                detail: detail@,
                path: path@,
            },
            Action::RemoveDir { path } => ActionView::RemoveDir { path: path@ },
            Action::Print { message } => ActionView::Print { message: message@ },
            Action::Fail { message } => ActionView::Fail { message: message@ },
            Action::Declined => ActionView::Declined,
        }
    }
}

impl DeepView for Action {
    type V = ActionView;

    open spec fn deep_view(&self) -> ActionView {
        self.view()
    }
}

/// An affirmative answer to a confirmation prompt: the trimmed input is
/// exactly "y", compared without regard to case.
pub open spec fn is_affirmative(input: Seq<char>) -> bool {
    let t = text::trim_spec(input);
    t.len() == 1 && (t[0] == 'y' || t[0] == 'Y')
}

/// The confirmation gate's reading of one input line: true exactly for a
/// trimmed, case-normalized "y". Every other input denies.
pub fn confirm_decision(input: &str) -> (r: bool)
    ensures
        r == is_affirmative(input@),
{
    let t = text::trim(input);
    if t.unicode_len() == 1 {
        let c = t.get_char(0);
        c == 'y' || c == 'Y'
    } else {
        false
    }
}

/// The yes/no question shown before a destructive action.
pub open spec fn confirm_prompt_spec(detail: Seq<char>) -> Seq<char> {
    "Are you sure you want to "@ + detail + "? [y/N]"@
}

/// Renders the yes/no question shown before a destructive action.
pub fn confirm_prompt(detail: &str) -> (r: String)
    ensures
        r@ == confirm_prompt_spec(detail@),
{
    text::concat3("Are you sure you want to ", detail, "? [y/N]")
}

/// Decides a pending removal from the line read at the prompt: the removal
/// proceeds only on an affirmative answer; any other input, or a failed
/// read, denies and exits with the distinct declined status.
pub fn after_confirm(input: &Option<String>, path: &String) -> (r: Action)
    ensures
        match input {
            Some(line) => {
                if is_affirmative(line@) {
                    r matches Action::RemoveDir { path: p } && p@ == path@
                } else {
                    r matches Action::Declined
                }
            },
            None => r matches Action::Declined,
        },
{
    match input {
        Some(line) => {
            if confirm_decision(line.as_str()) {
                Action::RemoveDir { path: path.clone() }
            } else {
                Action::Declined
            }
        },
        None => Action::Declined,
    }
}

/// What launching the editor on a path comes to, for a given existence
/// answer: the launch on the trimmed path when the path exists, a failure
/// naming the path otherwise.
pub open spec fn editor_launch_spec(filepath: Seq<char>, exists: bool) -> ActionView {
    if exists {
        ActionView::Editor { path: text::trim_spec(filepath) }
    } else {
        ActionView::Fail { message: "Editor could not find file '"@ + filepath + "'"@ }
    }
}

/// The decision behind `run_editor`, for a given existence answer.
pub fn run_editor_decision(filepath: &str, exists: bool) -> (r: Action)
    ensures
        r@ == editor_launch_spec(filepath@, exists),
{
    match crate::verify_filename_decision(filepath, exists) {
        Some(name) => Action::Editor { path: name.to_owned() },
        None => Action::Fail {
            message: text::concat3("Editor could not find file '", filepath, "'"),
        },
    }
}

/// Verifies the path and decides the editor launch: `Editor` on the
/// trimmed path when it exists, `Fail` naming it otherwise.
pub fn run_editor(filepath: &str) -> (r: Action)
    ensures
        r@ matches ActionView::Editor { path } ==> path == text::trim_spec(filepath@),
        r@ matches ActionView::Fail { message } ==> message == "Editor could not find file '"@
            + filepath@ + "'"@,
        (r@ matches ActionView::Editor { .. }) || (r@ matches ActionView::Fail { .. }),
{
    run_editor_decision(filepath, crate::path_exists(filepath))
}

/// The snapshot of the surroundings that one dispatch decides over. The
/// surrounding program fills the fields the chosen command reads: it
/// composes the command's paths through this library's path functions,
/// checks their existence, and lists the directories the command shows.
pub struct Env {
    /// The configuration as loaded, or the message of a missing
    /// configuration file.
    pub config: Result<Toml, String>,
    /// The home directory.
    pub home: String,
    /// The configured documents directory, which the document commands
    /// resolve against.
    pub doc_dir: String,
    /// Whether the command's primary resolved path exists; for the
    /// configuration commands, whether the configuration file exists.
    pub target_exists: bool,
    /// Whether the command's containing directory exists.
    pub dir_exists: bool,
    /// The contents of the primary directory the command lists.
    pub files: Vec<String>,
    /// The contents of the secondary directory the command lists.
    pub sub_files: Vec<String>,
}

/// Maps a parsed command line to its plan of external effects. `None`
/// exactly when a listing's fixed pattern does not compile, which is never
/// shown to the user.
pub fn match_command(cli: &crate::Cli, env: &Env) -> (r: Option<Vec<Action>>)
    ensures
        match &cli.command {
            Commands::Config { command } => r matches Some(v) && v.deep_view()
                == config::config_plan_spec(
                *command,
                env.home@,
                env.target_exists,
                config::config_view(&env.config),
            ),
            Commands::Open { file_name } => r matches Some(v) && v.deep_view() == seq![
                ActionView::Editor { path: file_name@ },
            ],
            Commands::Rust { command } => (r is Some <==> rust::rust_plannable(
                *command,
                env.config is Ok,
                env.dir_exists,
            )) && (r matches Some(v) ==> v.deep_view() == rust::rust_plan_spec(
                *command,
                config::config_view(&env.config),
                env.target_exists,
                env.dir_exists,
                env.files.deep_view(),
                env.sub_files.deep_view(),
            )),
            Commands::Latex { command } => r matches Some(v) && v.deep_view()
                == latex::latex_plan_spec(
                *command,
                config::config_view(&env.config),
                env.doc_dir@,
                env.target_exists,
            ),
            Commands::Note { command } => r matches Some(v) && v.deep_view()
                == note::note_plan_spec(
                *command,
                config::config_view(&env.config),
                env.dir_exists,
                env.target_exists,
                env.files.deep_view(),
            ),
        },
{
    match &cli.command {
        Commands::Config { command } => Some(
            config::parse_command(command, env.home.as_str(), env.target_exists, &env.config),
        ),
        Commands::Open { file_name } => Some(
            plan1(Action::Editor { path: file_name.clone() }),
        ),
        Commands::Rust { command } => rust::parse_command(
            command,
            &env.config,
            env.target_exists,
            env.dir_exists,
            &env.files,
            &env.sub_files,
        ),
        Commands::Latex { command } => Some(
            latex::parse_command(command, &env.config, &env.doc_dir, env.target_exists),
        ),
        Commands::Note { command } => Some(
            note::parse_command(
                command,
                &env.config,
                env.dir_exists,
                env.target_exists,
                &env.files,
            ),
        ),
    }
}

/// A plan of one action.
pub(crate) fn plan1(a: Action) -> (r: Vec<Action>)
    ensures
        r.deep_view() == seq![a.deep_view()],
{
    let mut v: Vec<Action> = Vec::new();
    v.push(a);
    proof {
        assert(v.deep_view() =~= seq![v@[0].deep_view()]);
    }
    v
}

/// A plan of two actions, in order.
pub(crate) fn plan2(a: Action, b: Action) -> (r: Vec<Action>)
    ensures
        r.deep_view() == seq![a.deep_view(), b.deep_view()],
{
    let mut v: Vec<Action> = Vec::new();
    v.push(a);
    v.push(b);
    proof {
        assert(v.deep_view() =~= seq![v@[0].deep_view(), v@[1].deep_view()]);
    }
    v
}

/// A plan of three actions, in order.
pub(crate) fn plan3(a: Action, b: Action, c: Action) -> (r: Vec<Action>)
    ensures
        r.deep_view() == seq![a.deep_view(), b.deep_view(), c.deep_view()],
{
    let mut v: Vec<Action> = Vec::new();
    v.push(a);
    v.push(b);
    v.push(c);
    proof {
        assert(v.deep_view() =~= seq![
            v@[0].deep_view(),
            v@[1].deep_view(),
            v@[2].deep_view(),
        ]);
    }
    v
}

/// One `Print` action per file: a tab, then the name.
pub open spec fn print_lines_spec(files: Seq<Seq<char>>) -> Seq<ActionView>
    decreases files.len(),
{
    if files.len() == 0 {
        Seq::<ActionView>::empty()
    } else {
        print_lines_spec(files.drop_last()).push(
            ActionView::Print { message: "\t"@ + files.last() },
        )
    }
}

/// Builds one `Print` action per file: a tab, then the name.
pub fn print_lines(files: &Vec<String>) -> (r: Vec<Action>)
    ensures
        r.deep_view() == print_lines_spec(files.deep_view()),
{
    let mut r: Vec<Action> = Vec::new();
    let ghost all = files.deep_view();
    let mut i: usize = 0;
    while i < files.len()
        invariant
            i <= files.len(),
            all == files.deep_view(),
            r.deep_view() == print_lines_spec(all.subrange(0, i as int)),
        decreases files.len() - i,
    {
        let ghost prefix = all.subrange(0, i as int);
        r.push(Action::Print { message: text::concat2("\t", files[i].as_str()) });
        proof {
            let longer = all.subrange(0, i + 1);
            assert(longer.drop_last() =~= prefix);
            assert(r.deep_view() =~= print_lines_spec(longer));
        }
        i = i + 1;
    }
    proof {
        assert(all.subrange(0, files.len() as int) =~= all);
    }
    r
}

} // verus!
