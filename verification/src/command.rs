//! What an invocation does: the note to initialize, the editor's arguments,
//! and the arguments of the git commands that record the journal.

use crate::cli::{Cli, Commands};
use crate::date::{date_header, date_namespace, for_date, for_today, valid_date, DatedNote};
use crate::error::JournalError;
use crate::namespace::{directory_of, file_of, resolve};
use crate::note::{initial_content, initial_text, text_of};
use crate::profile::{commit_policy, resolve_commit, ProfileConfig};
use crate::text::texts;
use vstd::prelude::*;
use vstd::string::*;

verus! {

/// The editor's arguments: change to the root, open the file, check the
/// spelling and wrap long lines.
pub open spec fn editor_arguments(root: Seq<char>, file: Seq<char>) -> Seq<Seq<char>> {
    seq!["-c"@, "cd "@ + root, file, "-c"@, ":set spell"@, "-c"@, ":set wrap"@]
}

/// The arguments with which git stages every change under `root`.
pub open spec fn stage_arguments(root: Seq<char>) -> Seq<Seq<char>> {
    seq!["-C"@, root, "add"@, "."@]
}

/// The message of a commit made at the time that `stamp` names.
pub open spec fn commit_message_text(stamp: Seq<char>) -> Seq<char> {
    "jrnl: "@ + stamp
}

/// The arguments with which git commits what is staged under `root`.
pub open spec fn commit_arguments(root: Seq<char>, stamp: Seq<char>) -> Seq<Seq<char>> {
    seq!["-C"@, root, "commit"@, "-m"@, commit_message_text(stamp)]
}

/// The arguments with which git pushes the repository under `root`.
pub open spec fn push_arguments(root: Seq<char>, force: bool) -> Seq<Seq<char>> {
    if force {
        seq!["-C"@, root, "push"@, "--force"@]
    } else {
        seq!["-C"@, root, "push"@]
    }
}

/// `chrono::Local::now`, written out through its `Display`. The clock
/// decides the text: nothing is claimed of it. Where the system clock stands
/// before 1970 the calendar library stops the program.
#[verifier::external_body]
fn now_stamp() -> (stamp: String) {
    chrono::Local::now().to_string()
}

/// All that opening a note takes.
#[derive(Clone, Debug)]
pub struct OpenPlan {
    /// The journal's root directory.
    pub root: String,
    /// The directory to create, with every directory above it that is missing.
    pub directory: String,
    /// The note's file.
    pub file: String,
    /// What to write into the file if it was not there.
    pub content: String,
    /// The editor's arguments.
    pub editor_args: Vec<String>,
}

impl OpenPlan {
    /// Whether this is the plan for the note that `namespace` names under
    /// `root`, with `header` as the header asked for.
    pub open spec fn describes(
        &self,
        root: Seq<char>,
        namespace: Seq<Seq<char>>,
        header: Option<Seq<char>>,
    ) -> bool {
        &&& self.root@ == root
        &&& self.directory@ == directory_of(root, namespace.drop_last())
        &&& self.file@ == file_of(root, namespace)
        &&& self.content@ == initial_text(namespace, header)
        &&& texts(self.editor_args@) == editor_arguments(root, self.file@)
    }
}

/// What opening the note that `namespace` names must come to: the error of a
/// profile without a root, else that of a namespace too short, else the
/// note's plan.
pub open spec fn plans(
    result: Result<OpenPlan, JournalError>,
    options: Map<Seq<char>, Seq<char>>,
    namespace: Seq<Seq<char>>,
    header: Option<Seq<char>>,
) -> bool {
    if !options.contains_key("root"@) {
        result matches Err(e) && e == JournalError::MissingRoot
    } else if namespace.len() < 2 {
        result matches Err(e) && e == JournalError::NamespaceTooShort
    } else {
        result matches Ok(plan) && plan.describes(options["root"@], namespace, header)
    }
}

/// The two git commands of a commit.
#[derive(Clone, Debug)]
pub struct CommitSteps {
    /// Arguments of the command that stages.
    pub stage: Vec<String>,
    /// Arguments of the command that commits.
    pub commit: Vec<String>,
}

/// What an invocation does before the commit.
#[derive(Clone, Debug)]
pub enum Action {
    /// Initialize a note and open it in the editor.
    Open(OpenPlan),
    /// Run git with these arguments to push.
    Push(Vec<String>),
}

/// An invocation, decided.
#[derive(Clone, Debug)]
pub struct Invocation {
    /// What to do first.
    pub action: Action,
    /// Whether to commit afterwards.
    pub commit: bool,
}

/// Whether `result` is what opening the note that `namespace` names comes to,
/// with the commit decided as `commit`.
pub open spec fn opens(
    result: Result<Invocation, JournalError>,
    options: Map<Seq<char>, Seq<char>>,
    namespace: Seq<Seq<char>>,
    header: Option<Seq<char>>,
    commit: bool,
) -> bool {
    match result {
        Ok(invocation) => {
            &&& invocation.commit == commit
            &&& invocation.action matches Action::Open(plan)
            &&& plans(Ok(plan), options, namespace, header)
        },
        Err(e) => plans(Err(e), options, namespace, header),
    }
}

/// Whether `result` is what pushing comes to: the error of a profile without
/// a root, else git's arguments.
pub open spec fn pushes(
    result: Result<Invocation, JournalError>,
    options: Map<Seq<char>, Seq<char>>,
    force: bool,
    commit: bool,
) -> bool {
    if !options.contains_key("root"@) {
        result matches Err(e) && e == JournalError::MissingRoot
    } else {
        match result {
            Ok(invocation) => {
                &&& invocation.commit == commit
                &&& invocation.action matches Action::Push(args)
                &&& texts(args@) == push_arguments(options["root"@], force)
            },
            Err(_) => false,
        }
    }
}

/// The editor's arguments for a note's file.
pub fn editor_args(root: &str, file: &str) -> (args: Vec<String>)
    ensures
        texts(args@) == editor_arguments(root@, file@),
{
    let args = vec![
        String::from_str("-c"),
        String::from_str("cd ").concat(root),
        String::from_str(file),
        String::from_str("-c"),
        String::from_str(":set spell"),
        String::from_str("-c"),
        String::from_str(":set wrap"),
    ];
    assert(texts(args@) =~= editor_arguments(root@, file@));
    args
}

/// Plans the opening of the note that `ns` names: where it lives, what it
/// holds if it is new, and how the editor is called.
pub fn open(profile_config: &ProfileConfig, ns: Vec<String>, header: Option<String>) -> (result:
    Result<OpenPlan, JournalError>)
    ensures
        plans(result, profile_config@, texts(ns@), text_of(header)),
{
    let root = match profile_config.root() {
        Ok(root) => root,
        Err(e) => {
            return Err(e);
        },
    };
    let path = match resolve(root.as_str(), &ns) {
        Ok(path) => path,
        Err(e) => {
            return Err(e);
        },
    };
    let content = initial_content(&ns, header);
    let editor_args = editor_args(root.as_str(), path.file.as_str());
    Ok(OpenPlan { root, directory: path.directory, file: path.file, content, editor_args })
}

/// Plans the opening of a day's note. The date is checked first.
pub fn open_date(profile_config: &ProfileConfig, year: i32, month: u32, day: u32) -> (result:
    Result<OpenPlan, JournalError>)
    ensures
        !valid_date(year as int, month as int, day as int) ==> (result matches Err(e) && e
            == JournalError::InvalidDate),
        valid_date(year as int, month as int, day as int) ==> plans(
            result,
            profile_config@,
            date_namespace(year as int, month as int, day as int),
            Some(date_header(year as int, month as int, day as int)),
        ),
{
    match for_date(year, month, day) {
        Ok(note) => open_note(profile_config, note),
        Err(e) => Err(e),
    }
}

/// Plans the opening of a day's note that was made already.
fn open_note(profile_config: &ProfileConfig, note: DatedNote) -> (result: Result<
    OpenPlan,
    JournalError,
>)
    ensures
        plans(result, profile_config@, texts(note.namespace@), Some(note.header@)),
{
    open(profile_config, note.namespace, Some(note.header))
}

/// Plans the opening of the note of the current local day: the plan of
/// `open_date` for the day that the clock gives. Only a profile without a
/// root makes it fail.
pub fn open_today(profile_config: &ProfileConfig) -> (result: Result<OpenPlan, JournalError>)
    ensures
        result.is_ok() == profile_config.has_root(),
        result matches Err(e) ==> e == JournalError::MissingRoot,
        exists|year: int, month: int, day: int|
            valid_date(year, month, day) && #[trigger] plans(
                result,
                profile_config@,
                date_namespace(year, month, day),
                Some(date_header(year, month, day)),
            ),
{
    let note = for_today();
    let ghost (year, month, day) = choose|year: int, month: int, day: int|
        valid_date(year, month, day) && #[trigger] note.is_for(year, month, day);
    let result = open_note(profile_config, note);
    assert(plans(
        result,
        profile_config@,
        date_namespace(year, month, day),
        Some(date_header(year, month, day)),
    ));
    result
}

/// The message of a commit made at the time that `stamp` names.
pub fn commit_message(stamp: &str) -> (message: String)
    ensures
        message@ == commit_message_text(stamp@),
{
    String::from_str("jrnl: ").concat(stamp)
}

/// The two git commands that record the journal under `root` at the time
/// that `stamp` names.
pub fn commit_steps(root: &str, stamp: &str) -> (steps: CommitSteps)
    ensures
        texts(steps.stage@) == stage_arguments(root@),
        texts(steps.commit@) == commit_arguments(root@, stamp@),
{
    let stage = vec![
        String::from_str("-C"),
        String::from_str(root),
        String::from_str("add"),
        String::from_str("."),
    ];
    let commit = vec![
        String::from_str("-C"),
        String::from_str(root),
        String::from_str("commit"),
        String::from_str("-m"),
        commit_message(stamp),
    ];
    assert(texts(stage@) =~= stage_arguments(root@));
    assert(texts(commit@) =~= commit_arguments(root@, stamp@));
    CommitSteps { stage, commit }
}

/// The two git commands that record the journal now. The clock decides the
/// time in the message.
pub fn git_commit(profile_config: &ProfileConfig) -> (steps: CommitSteps)
    requires
        profile_config.has_root(),
    ensures
        texts(steps.stage@) == stage_arguments(profile_config@["root"@]),
        exists|stamp: Seq<char>|
            texts(steps.commit@) == #[trigger] commit_arguments(profile_config@["root"@], stamp),
{
    let root = profile_config.get_root();
    let stamp = now_stamp();
    let steps = commit_steps(root.as_str(), stamp.as_str());
    assert(texts(steps.commit@) == commit_arguments(profile_config@["root"@], stamp@));
    steps
}

/// The arguments with which git pushes the journal, by force or not.
pub fn git_push(profile_config: &ProfileConfig, force: bool) -> (args: Vec<String>)
    requires
        profile_config.has_root(),
    ensures
        texts(args@) == push_arguments(profile_config@["root"@], force),
{
    let root = profile_config.get_root();
    let args = if force {
        vec![
            String::from_str("-C"),
            root,
            String::from_str("push"),
            String::from_str("--force"),
        ]
    } else {
        vec![String::from_str("-C"), root, String::from_str("push")]
    };
    assert(texts(args@) =~= push_arguments(profile_config@["root"@], force));
    args
}

/// Decides an invocation. Flags that contradict each other are refused
/// before anything else is looked at; then the command is planned: a date's
/// note, a namespace's note, a push, or today's note where none is given.
pub fn dispatch(profile_config: &ProfileConfig, cli: Cli) -> (result: Result<
    Invocation,
    JournalError,
>)
    ensures
        cli.commit && cli.no_commit ==> (result matches Err(e) && e
            == JournalError::ConflictingCommitFlags),
        !(cli.commit && cli.no_commit) ==> (match cli.command {
            Some(Commands::Date { year, month, day }) => if valid_date(
                year as int,
                month as int,
                day as int,
            ) {
                opens(
                    result,
                    profile_config@,
                    date_namespace(year as int, month as int, day as int),
                    Some(date_header(year as int, month as int, day as int)),
                    commit_policy(profile_config@, cli.commit, cli.no_commit),
                )
            } else {
                result matches Err(e) && e == JournalError::InvalidDate
            },
            Some(Commands::NS { ns }) => opens(
                result,
                profile_config@,
                texts(ns@),
                None,
                commit_policy(profile_config@, cli.commit, cli.no_commit),
            ),
            Some(Commands::Push { force }) => pushes(
                result,
                profile_config@,
                force == Some(true),
                commit_policy(profile_config@, cli.commit, cli.no_commit),
            ),
            None => {
                &&& result.is_ok() == profile_config.has_root()
                &&& result matches Err(e) ==> e == JournalError::MissingRoot
                &&& exists|year: int, month: int, day: int|
                    valid_date(year, month, day) && #[trigger] opens(
                        result,
                        profile_config@,
                        date_namespace(year, month, day),
                        Some(date_header(year, month, day)),
                        commit_policy(profile_config@, cli.commit, cli.no_commit),
                    )
            },
        }),
{
    let commit = match resolve_commit(profile_config, &cli) {
        Ok(commit) => commit,
        Err(e) => {
            return Err(e);
        },
    };
    match cli.command {
        Some(Commands::Date { year, month, day }) => {
            match open_date(profile_config, year, month, day) {
                Ok(plan) => Ok(Invocation { action: Action::Open(plan), commit }),
                Err(e) => Err(e),
            }
        },
        Some(Commands::NS { ns }) => {
            match open(profile_config, ns, None) {
                Ok(plan) => Ok(Invocation { action: Action::Open(plan), commit }),
                Err(e) => Err(e),
            }
        },
        Some(Commands::Push { force }) => {
            let by_force = match force {
                Some(f) => f,
                None => false,
            };
            match profile_config.root() {
                Ok(_) => Ok(
                    Invocation { action: Action::Push(git_push(profile_config, by_force)), commit },
                ),
                Err(e) => Err(e),
            }
        },
        None => {
            let opened = open_today(profile_config);
            let ghost (year, month, day) = choose|year: int, month: int, day: int|
                valid_date(year, month, day) && #[trigger] plans(
                    opened,
                    profile_config@,
                    date_namespace(year, month, day),
                    Some(date_header(year, month, day)),
                );
            let result = match opened {
                Ok(plan) => Ok(Invocation { action: Action::Open(plan), commit }),
                Err(e) => Err(e),
            };
            assert(opens(
                result,
                profile_config@,
                date_namespace(year, month, day),
                Some(date_header(year, month, day)),
                commit,
            ));
            result
        },
    }
}

} // verus!
