//! The reasons for which a request is turned down.

use vstd::prelude::*;
use vstd::string::*;

verus! {

/// Why a request cannot be served. Each one ends the invocation.
#[derive(Clone, Copy, Debug, PartialEq, Eq, Structural)]
pub enum JournalError {
    /// The profile has no `root` entry.
    MissingRoot,
    /// The namespace has fewer than two segments.
    NamespaceTooShort,
    /// The year, month and day name no day of the calendar.
    InvalidDate,
    /// Both the flag that forces a commit and the one that forbids it were given.
    ConflictingCommitFlags,
    /// The note's file could not be created, for another reason than that it
    /// is there already.
    CreateFailed,
}

impl JournalError {
    /// The message shown to the user.
    pub fn message(&self) -> (text: String)
        ensures
            text@ == (match *self {
                JournalError::MissingRoot => "Profile has no root"@,
                JournalError::NamespaceTooShort => "ns must be at least two deep"@,
                JournalError::InvalidDate => "Not a valid date"@,
                JournalError::ConflictingCommitFlags =>
                    "Cannot specify both --commit and --no-commit flags"@,
                JournalError::CreateFailed => "Couldn't create the note"@,
            }),
    {
        match *self {
            JournalError::MissingRoot => String::from_str("Profile has no root"),
            JournalError::NamespaceTooShort => String::from_str("ns must be at least two deep"),
            JournalError::InvalidDate => String::from_str("Not a valid date"),
            JournalError::ConflictingCommitFlags => String::from_str(
                "Cannot specify both --commit and --no-commit flags",
            ),
            JournalError::CreateFailed => String::from_str("Couldn't create the note"),
        }
    }
}

} // verus!
