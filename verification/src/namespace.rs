//! Namespaces: the segments that name a note, the file they stand for and
//! the header that a fresh note gets from them.

use crate::error::JournalError;
use crate::text::{join, joined, texts};
use vstd::prelude::*;
use vstd::string::*;

verus! {

/// The path made by adjoining `segment` to `base`, as
/// `std::path::Path::join` does it.
pub uninterp spec fn joined_path(base: Seq<char>, segment: Seq<char>) -> Seq<char>;

/// `std::path::Path::join`, on paths held as text. Believed, not proved: the
/// path that comes back depends on the two texts alone. Both are UTF-8, so
/// the result is too, and turning it into a `String` loses nothing.
#[verifier::external_body]
fn join_path(base: &str, segment: &str) -> (path: String)
    ensures
        path@ == joined_path(base@, segment@),
{
    std::path::Path::new(base).join(segment).to_string_lossy().into_owned()
}

/// The directory reached from `root` through `dirs`, one after the other.
pub open spec fn directory_of(root: Seq<char>, dirs: Seq<Seq<char>>) -> Seq<char>
    decreases dirs.len(),
{
    if dirs.len() == 0 {
        root
    } else {
        joined_path(directory_of(root, dirs.drop_last()), dirs.last())
    }
}

/// The name of a note's file: its stem with the Markdown extension.
pub open spec fn file_name(stem: Seq<char>) -> Seq<char> {
    stem + ".md"@
}

/// The file of the note that `namespace` names under `root`: its last segment
/// is the file's stem, the segments before it are nested directories.
pub open spec fn file_of(root: Seq<char>, namespace: Seq<Seq<char>>) -> Seq<char>
    recommends
        namespace.len() >= 1,
{
    joined_path(directory_of(root, namespace.drop_last()), file_name(namespace.last()))
}

/// The header of a note that was given none: the segments joined by dots,
/// as a first-level Markdown heading.
pub open spec fn header_text(namespace: Seq<Seq<char>>) -> Seq<char> {
    "# "@ + joined(namespace, "."@)
}

/// Where a note lives.
#[derive(Clone, Debug)]
pub struct NotePath {
    /// The directory that holds the note.
    pub directory: String,
    /// The note's file.
    pub file: String,
}

/// The default header of the note that `ns` names.
pub fn get_header(ns: Vec<String>) -> (header: String)
    ensures
        header@ == header_text(texts(ns@)),
{
    header_of(&ns)
}

/// The default header of the note that `ns` names, for a namespace that the
/// caller keeps.
pub fn header_of(ns: &Vec<String>) -> (header: String)
    ensures
        header@ == header_text(texts(ns@)),
{
    let h = join(ns, ".");
    String::from_str("# ").concat(h.as_str())
}

/// The directory and file of the note that `ns` names under `root`.
/// A namespace of fewer than two segments names no note.
pub fn resolve(root: &str, ns: &Vec<String>) -> (path: Result<NotePath, JournalError>)
    ensures
        path.is_err() == (ns.len() < 2),
        path matches Err(e) ==> e == JournalError::NamespaceTooShort,
        path matches Ok(p) ==> {
            &&& p.directory@ == directory_of(root@, texts(ns@).drop_last())
            &&& p.file@ == joined_path(p.directory@, file_name(texts(ns@).last()))
            &&& p.file@ == file_of(root@, texts(ns@))
        },
{
    if ns.len() < 2 {
        return Err(JournalError::NamespaceTooShort);
    }
    let dirs: usize = ns.len() - 1;
    let ghost segments = texts(ns@).drop_last();
    let mut directory = String::from_str(root);
    let mut i: usize = 0;
    while i < dirs
        invariant
            i <= dirs,
            dirs == ns.len() - 1,
            segments == texts(ns@).drop_last(),
            directory@ == directory_of(root@, segments.take(i as int)),
        decreases dirs - i,
    {
        proof {
            assert(segments.take(i + 1).drop_last() =~= segments.take(i as int));
            assert(segments.take(i + 1).last() == ns@[i as int]@);
        }
        directory = join_path(directory.as_str(), ns[i].as_str());
        i += 1;
    }
    assert(segments.take(dirs as int) =~= segments);
    let name = ns[dirs].clone().concat(".md");
    let file = join_path(directory.as_str(), name.as_str());
    Ok(NotePath { directory, file })
}

} // verus!
