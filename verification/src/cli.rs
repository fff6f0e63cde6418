//! What the user asked for on the command line, as plain values.

use vstd::prelude::*;

verus! {

/// The command that was chosen, with its arguments.
#[derive(Clone, Debug)]
pub enum Commands {
    /// Open the note of a calendar day.
    Date { year: i32, month: u32, day: u32 },
    /// Open the note that a namespace names.
    NS { ns: Vec<String> },
    /// Push the journal's repository.
    Push { force: Option<bool> },
}

/// One invocation's arguments.
#[derive(Clone, Debug)]
pub struct Cli {
    /// Optional name to operate on.
    pub name: Option<String>,
    /// The profile to use instead of the configured one.
    pub profile: Option<String>,
    /// How often the debug flag was given.
    pub debug: u8,
    /// Commit after opening, whatever the profile says.
    pub commit: bool,
    /// Do not commit, whatever the profile says.
    pub no_commit: bool,
    /// The command; none means today's note.
    pub command: Option<Commands>,
}

} // verus!
