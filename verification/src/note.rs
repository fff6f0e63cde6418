//! Initializing a note: a file that is not there yet is created with its
//! header; one that is there is left as it is.

use crate::error::JournalError;
use crate::namespace::{header_of, header_text};
use crate::text::texts;
use vstd::prelude::*;
use vstd::string::*;

verus! {

/// The view of a text that may be absent.
pub open spec fn text_of(text: Option<String>) -> Option<Seq<char>> {
    match text {
        Some(t) => Some(t@),
        None => None,
    }
}

/// What a fresh note holds: the header that was given, else the default
/// header of its namespace.
pub open spec fn initial_text(namespace: Seq<Seq<char>>, header: Option<Seq<char>>) -> Seq<char> {
    match header {
        Some(h) => h,
        None => header_text(namespace),
    }
}

/// What a note holds after it was initialized with `initial`: what it held
/// before, if it was there; else `initial`.
pub open spec fn content_after(existing: Option<Seq<char>>, initial: Seq<char>) -> Seq<char> {
    match existing {
        Some(content) => content,
        None => initial,
    }
}

/// How the attempt to create the note's file, and only to create it, ended.
#[derive(Clone, Copy, Debug, PartialEq, Eq, Structural)]
pub enum CreateOutcome {
    /// The file was not there and is now, empty.
    Created,
    /// The file is there already.
    AlreadyExists,
    /// The file could not be created for another reason.
    Failed,
}

/// What to write into the file after the attempt to create it: the initial
/// content into a file that was just created, nothing into one that was
/// there. Any other failure is an error.
pub open spec fn write_after(outcome: CreateOutcome, initial: Seq<char>) -> Result<
    Option<Seq<char>>,
    JournalError,
> {
    match outcome {
        CreateOutcome::Created => Ok(Some(initial)),
        CreateOutcome::AlreadyExists => Ok(None),
        CreateOutcome::Failed => Err(JournalError::CreateFailed),
    }
}

/// What a fresh note holds.
pub fn initial_content(ns: &Vec<String>, header: Option<String>) -> (content: String)
    ensures
        content@ == initial_text(texts(ns@), text_of(header)),
{
    match header {
        Some(h) => h,
        None => header_of(ns),
    }
}

/// Decides what to write once the attempt to create the file has ended.
pub fn after_create(outcome: CreateOutcome, initial: String) -> (step: Result<
    Option<String>,
    JournalError,
>)
    ensures
        step.is_ok() == (outcome != CreateOutcome::Failed),
        step matches Ok(write) ==> write_after(outcome, initial@) == Ok::<
            Option<Seq<char>>,
            JournalError,
        >(text_of(write)),
        step matches Err(e) ==> e == JournalError::CreateFailed,
{
    match outcome {
        CreateOutcome::Created => Ok(Some(initial)),
        CreateOutcome::AlreadyExists => Ok(None),
        CreateOutcome::Failed => Err(JournalError::CreateFailed),
    }
}

/// The content of a note after it was initialized, from what it held before
/// (`None` for a note that was not there).
pub fn ensure(existing: Option<String>, ns: &Vec<String>, header: Option<String>) -> (content:
    String)
    ensures
        content@ == content_after(text_of(existing), initial_text(texts(ns@), text_of(header))),
        existing matches Some(before) ==> content@ == before@,
{
    match existing {
        Some(before) => before,
        None => initial_content(ns, header),
    }
}

/// Initializing a note twice leaves what the first time left: the second
/// time changes nothing, whatever header it is given.
pub proof fn law_initialize_twice(existing: Option<Seq<char>>, first: Seq<char>, second: Seq<char>)
    ensures
        content_after(Some(content_after(existing, first)), second) == content_after(
            existing,
            first,
        ),
{
}

/// A note that is there keeps its content, whatever header is given, and
/// nothing is written into it.
pub proof fn law_existing_kept(content: Seq<char>, initial: Seq<char>)
    ensures
        content_after(Some(content), initial) == content,
        write_after(CreateOutcome::AlreadyExists, initial) == Ok::<
            Option<Seq<char>>,
            JournalError,
        >(None),
{
}

/// A note that was not there holds exactly what is written into the file
/// that was created for it.
pub proof fn law_created_holds_initial(initial: Seq<char>)
    ensures
        write_after(CreateOutcome::Created, initial) == Ok::<Option<Seq<char>>, JournalError>(
            Some(content_after(None, initial)),
        ),
{
}

} // verus!
