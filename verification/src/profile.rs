//! A profile: the named options of one journal, and what they decide.

use crate::cli::Cli;
use crate::error::JournalError;
use vstd::prelude::*;
use vstd::string::*;

verus! {

/// The options that a list of entries defines: a later entry replaces an
/// earlier one with the same name.
pub open spec fn entries_map(entries: Seq<(String, String)>) -> Map<Seq<char>, Seq<char>>
    decreases entries.len(),
{
    if entries.len() == 0 {
        Map::empty()
    } else {
        entries_map(entries.drop_last()).insert(entries.last().0@, entries.last().1@)
    }
}

/// The commit setting of a profile: off only where the option `commit` reads
/// `false`; on where it is absent, reads `true`, or reads anything else.
pub open spec fn commit_setting(options: Map<Seq<char>, Seq<char>>) -> bool {
    !(options.contains_key("commit"@) && options["commit"@] == "false"@)
}

/// Whether to commit after a note was opened: a flag decides where one is
/// given, the profile where none is.
pub open spec fn commit_policy(
    options: Map<Seq<char>, Seq<char>>,
    commit: bool,
    no_commit: bool,
) -> bool {
    if commit {
        true
    } else if no_commit {
        false
    } else {
        commit_setting(options)
    }
}

/// The name of the profile to load: the one asked for, else the configured
/// one, else `default`.
pub open spec fn chosen_profile(
    requested: Option<Seq<char>>,
    configured: Option<Seq<char>>,
) -> Seq<char> {
    match requested {
        Some(name) => name,
        None => match configured {
            Some(name) => name,
            None => "default"@,
        },
    }
}

proof fn lemma_absent(entries: Seq<(String, String)>, key: Seq<char>)
    requires
        forall|j: int| 0 <= j < entries.len() ==> (#[trigger] entries[j]).0@ != key,
    ensures
        !entries_map(entries).contains_key(key),
    decreases entries.len(),
{
    if entries.len() > 0 {
        let rest = entries.drop_last();
        assert forall|j: int| 0 <= j < rest.len() implies (#[trigger] rest[j]).0@ != key by {
            assert(rest[j] == entries[j]);
        }
        lemma_absent(rest, key);
        assert(entries.last() == entries[entries.len() - 1]);
    }
}

proof fn lemma_last_wins(entries: Seq<(String, String)>, i: int, key: Seq<char>)
    requires
        0 <= i < entries.len(),
        entries[i].0@ == key,
        forall|j: int| i < j < entries.len() ==> (#[trigger] entries[j]).0@ != key,
    ensures
        entries_map(entries).contains_key(key),
        entries_map(entries)[key] == entries[i].1@,
    decreases entries.len(),
{
    if i < entries.len() - 1 {
        let rest = entries.drop_last();
        assert(rest[i] == entries[i]);
        assert forall|j: int| i < j < rest.len() implies (#[trigger] rest[j]).0@ != key by {
            assert(rest[j] == entries[j]);
        }
        lemma_last_wins(rest, i, key);
        assert(entries.last() == entries[entries.len() - 1]);
    }
}

/// The options of one profile.
#[derive(Debug, Clone)]
pub struct ProfileConfig {
    config: Vec<(String, String)>,
}

impl View for ProfileConfig {
    type V = Map<Seq<char>, Seq<char>>;

    open spec fn view(&self) -> Map<Seq<char>, Seq<char>> {
        entries_map(self.entries())
    }
}

impl ProfileConfig {
    /// The entries as they were given.
    pub closed spec fn entries(&self) -> Seq<(String, String)> {
        self.config@
    }

    /// Whether the profile says where the journal is kept.
    pub open spec fn has_root(&self) -> bool {
        self@.contains_key("root"@)
    }

    /// A profile of the given entries, each an option's name and its value.
    pub fn new(config: Vec<(String, String)>) -> (profile: Self)
        ensures
            profile.entries() == config@,
            profile@ == entries_map(config@),
    {
        Self { config }
    }

    /// The value of an option, if the profile has it.
    pub fn get(&self, name: &str) -> (value: Option<String>)
        ensures
            value.is_some() == self@.contains_key(name@),
            value matches Some(v) ==> v@ == self@[name@],
    {
        let wanted = String::from_str(name);
        let mut i: usize = self.config.len();
        while i > 0
            invariant
                i <= self.config.len(),
                wanted@ == name@,
                forall|j: int|
                    i <= j < self.config.len() ==> (#[trigger] self.config@[j]).0@ != name@,
            decreases i,
        {
            i -= 1;
            if self.config[i].0 == wanted {
                proof {
                    lemma_last_wins(self.config@, i as int, name@);
                }
                return Some(self.config[i].1.clone());
            }
        }
        proof {
            lemma_absent(self.config@, name@);
        }
        None
    }

    /// The journal's root directory, or the error of a profile without one.
    pub fn root(&self) -> (root: Result<String, JournalError>)
        ensures
            root.is_ok() == self.has_root(),
            root matches Ok(path) ==> path@ == self@["root"@],
            root matches Err(e) ==> e == JournalError::MissingRoot,
    {
        match self.get("root") {
            Some(path) => Ok(path),
            None => Err(JournalError::MissingRoot),
        }
    }

    /// The journal's root directory, of a profile that has one.
    pub fn get_root(&self) -> (root: String)
        requires
            self.has_root(),
        ensures
            root@ == self@["root"@],
    {
        self.get("root").unwrap()
    }

    /// Whether the profile asks for a commit after each opened note.
    pub fn get_commit(&self) -> (commit: bool)
        ensures
            commit == commit_setting(self@),
    {
        match self.get("commit") {
            Some(value) => !(value == String::from_str("false")),
            None => true,
        }
    }
}

/// The path of the journal's root directory.
pub fn get_root_path(profile_config: &ProfileConfig) -> (root: String)
    requires
        profile_config.has_root(),
    ensures
        root@ == profile_config@["root"@],
{
    profile_config.get_root()
}

/// Whether to commit, for flags that do not contradict each other.
pub fn should_commit(profile_config: &ProfileConfig, cli: &Cli) -> (commit: bool)
    requires
        !(cli.commit && cli.no_commit),
    ensures
        commit == commit_policy(profile_config@, cli.commit, cli.no_commit),
{
    if cli.commit {
        return true;
    }
    if cli.no_commit {
        return false;
    }
    profile_config.get_commit()
}

/// Whether to commit, or the error of flags that contradict each other.
pub fn resolve_commit(profile_config: &ProfileConfig, cli: &Cli) -> (commit: Result<
    bool,
    JournalError,
>)
    ensures
        commit.is_err() == (cli.commit && cli.no_commit),
        commit matches Err(e) ==> e == JournalError::ConflictingCommitFlags,
        commit matches Ok(c) ==> c == commit_policy(profile_config@, cli.commit, cli.no_commit),
{
    if cli.commit && cli.no_commit {
        Err(JournalError::ConflictingCommitFlags)
    } else {
        Ok(should_commit(profile_config, cli))
    }
}

/// The name of the profile to load.
pub fn select_profile(requested: Option<String>, configured: Option<String>) -> (name: String)
    ensures
        name@ == chosen_profile(
            match requested {
                Some(r) => Some(r@),
                None => None,
            },
            match configured {
                Some(c) => Some(c@),
                None => None,
            },
        ),
{
    match requested {
        Some(name) => name,
        None => match configured {
            Some(name) => name,
            None => String::from_str("default"),
        },
    }
}

} // verus!
