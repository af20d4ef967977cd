//! Vetting of archive entries: which stored paths are accepted, where an
//! accepted entry goes, and whether it becomes a directory or a file.

use vstd::prelude::*;
use vstd::string::*;
use crate::failure::EntryRejection;

verus! {

/// What the archive says about one entry, before anything is written.
#[derive(Debug, PartialEq, Eq)]
pub struct EntryHeader {
    /// The path as stored in the archive.
    pub name: String,
    /// The stored path as a relative path that stays below its starting
    /// point, where it is one.
    pub enclosed_name: Option<String>,
    /// Whether the archive marks the entry as a directory.
    pub directory_flag: bool,
}

/// Whether an accepted entry is a directory or a file.
#[derive(Clone, Copy, Debug, PartialEq, Eq, Structural)]
pub enum EntryKind {
    Directory,
    File,
}

/// An entry whose stored path was accepted, not yet confined to the target.
#[derive(Debug, PartialEq, Eq)]
pub struct EntryTarget {
    /// The path as stored in the archive.
    pub name: String,
    /// Where the entry goes, relative to the target directory.
    pub relative_path: String,
    pub kind: EntryKind,
}

/// What to do on disk for an entry that passed every check.
#[derive(Debug, PartialEq, Eq)]
pub enum EntryAction {
    /// Create the directory and what is missing above it.
    CreateDirectory { relative_path: String },
    /// Create the file, replacing one that is there, and copy the entry's
    /// bytes into it.
    WriteFile { relative_path: String },
}

/// A stored path names a directory when it ends in a separator.
pub open spec fn names_directory(name: Seq<char>) -> bool {
    name.len() > 0 && name.last() == '/'
}

/// The kind of an entry: a directory if its stored path ends in a separator
/// or the archive marks it as one, a file otherwise.
pub open spec fn entry_kind(name: Seq<char>, directory_flag: bool) -> EntryKind {
    if names_directory(name) || directory_flag {
        EntryKind::Directory
    } else {
        EntryKind::File
    }
}

/// The outcome of the first check, on the stored path alone.
pub open spec fn resolved(header: EntryHeader) -> Result<EntryTarget, EntryRejection> {
    match header.enclosed_name {
        None => Err(EntryRejection::InvalidArchiveEntry { name: header.name }),
        Some(path) => Ok(
            EntryTarget {
                name: header.name,
                relative_path: path,
                kind: entry_kind(header.name@, header.directory_flag),
            },
        ),
    }
}

/// The outcome of the second check, made once the entry's parent directory
/// exists: `nested` says whether that directory, with every link followed,
/// lies under the target directory.
pub open spec fn confined(target: EntryTarget, nested: bool) -> Result<
    EntryAction,
    EntryRejection,
> {
    if !nested {
        Err(EntryRejection::PathTraversal { name: target.name })
    } else {
        match target.kind {
            EntryKind::Directory => Ok(
                EntryAction::CreateDirectory { relative_path: target.relative_path },
            ),
            EntryKind::File => Ok(EntryAction::WriteFile { relative_path: target.relative_path }),
        }
    }
}

/// Both checks in a row: what becomes of an entry, given its header and the
/// answer to the containment question.
pub open spec fn vetted(header: EntryHeader, nested: bool) -> Result<EntryAction, EntryRejection> {
    match resolved(header) {
        Err(rejection) => Err(rejection),
        Ok(target) => confined(target, nested),
    }
}

/// Tells whether a stored path ends in a separator.
pub fn ends_in_separator(name: &str) -> (yes: bool)
    ensures
        yes == names_directory(name@),
{
    let n: usize = name.unicode_len();
    n > 0 && name.get_char(n - 1) == '/'
}

/// First check of an entry: turns away a stored path that is not a
/// well-formed relative path, and otherwise says where the entry goes and
/// what kind it is.
pub fn resolve_entry(header: EntryHeader) -> (outcome: Result<EntryTarget, EntryRejection>)
    ensures
        outcome == resolved(header),
{
    let EntryHeader { name, enclosed_name, directory_flag } = header;
    match enclosed_name {
        None => Err(EntryRejection::InvalidArchiveEntry { name }),
        Some(path) => {
            let kind = if ends_in_separator(name.as_str()) || directory_flag {
                EntryKind::Directory
            } else {
                EntryKind::File
            };
            Ok(EntryTarget { name, relative_path: path, kind })
        },
    }
}

/// Whether `std::path::Path::starts_with` finds that the path `out` begins
/// with the path `target`, whole component by whole component, on the
/// platform this crate is built for.
pub uninterp spec fn nested_under(out: Seq<char>, target: Seq<char>) -> bool;

/// Calls `std::path::Path::starts_with` on two paths given as text.
/// Trusted: the answer is a function of the two texts alone.
#[verifier::external_body]
fn path_starts_with(out: &str, target: &str) -> (nested: bool)
    ensures
        nested == nested_under(out@, target@),
{
    std::path::Path::new(out).starts_with(std::path::Path::new(target))
}

/// Second check of an entry, given the answer to the containment question:
/// turns the entry away if it would land outside the target directory, and
/// otherwise says what to do on disk.
pub fn place_entry(target: EntryTarget, nested: bool) -> (outcome: Result<
    EntryAction,
    EntryRejection,
>)
    ensures
        outcome == confined(target, nested),
{
    let EntryTarget { name, relative_path, kind } = target;
    if !nested {
        Err(EntryRejection::PathTraversal { name })
    } else {
        match kind {
            EntryKind::Directory => Ok(EntryAction::CreateDirectory { relative_path }),
            EntryKind::File => Ok(EntryAction::WriteFile { relative_path }),
        }
    }
}

/// Second check of an entry, made once the entry's parent directory exists.
/// `resolved_parent` is that directory and `resolved_target` the target
/// directory, both in canonical form with every link followed. The entry is
/// turned away unless its parent lies under the target.
pub fn confine_entry(target: EntryTarget, resolved_parent: &str, resolved_target: &str) -> (outcome:
    Result<EntryAction, EntryRejection>)
    ensures
        outcome == confined(target, nested_under(resolved_parent@, resolved_target@)),
{
    let nested = path_starts_with(resolved_parent, resolved_target);
    place_entry(target, nested)
}

/// An entry is written only if its stored path is a well-formed relative
/// path and its place lies under the target directory. An entry that fails
/// either test is turned away by name, and nothing is written for it.
pub proof fn lemma_escaping_entry_is_rejected(header: EntryHeader, nested: bool)
    ensures
        vetted(header, nested).is_ok() <==> (header.enclosed_name.is_some() && nested),
        header.enclosed_name.is_none() ==> vetted(header, nested) == Err::<
            EntryAction,
            EntryRejection,
        >(EntryRejection::InvalidArchiveEntry { name: header.name }),
        header.enclosed_name.is_some() && !nested ==> vetted(header, nested) == Err::<
            EntryAction,
            EntryRejection,
        >(EntryRejection::PathTraversal { name: header.name }),
{
}

/// An accepted entry is written at the path the archive gave for it, as a
/// directory exactly when its stored path ends in a separator or it is
/// marked as one.
pub proof fn lemma_accepted_entry_keeps_path(header: EntryHeader)
    requires
        header.enclosed_name.is_some(),
    ensures
        vetted(header, true) == Ok::<EntryAction, EntryRejection>(
            if names_directory(header.name@) || header.directory_flag {
                EntryAction::CreateDirectory { relative_path: header.enclosed_name.unwrap() }
            } else {
                EntryAction::WriteFile { relative_path: header.enclosed_name.unwrap() }
            },
        ),
{
}

} // verus!
