//! Paths of files that are named relative to another file.

use std::borrow::Cow;
use std::path::{Path, PathBuf};
use vstd::prelude::*;

verus! {

/// `std::path::Path`, carried through and never looked into.
#[verifier::external_type_specification]
#[verifier::external_body]
pub struct ExPath(Path);

/// `std::path::PathBuf`, carried through and never looked into.
#[verifier::external_type_specification]
#[verifier::external_body]
pub struct ExPathBuf(PathBuf);

/// The text that a path holds, where it was made from a string.
pub uninterp spec fn path_text(path: &Path) -> Seq<char>;

/// `Path::new` wraps the string as a path and changes nothing: the path
/// holds the text of `name`.
#[verifier::external_body]
fn as_path<'a>(name: &'a str) -> (path: &'a Path)
    ensures
        path_text(path) == name@,
{
    Path::new(name)
}

/// The path that `Path::join` makes of a path and the text adjoined to it,
/// by the rules of the platform that the library is built for.
pub uninterp spec fn joined(base: &Path, name: Seq<char>) -> PathBuf;

/// `Path::join` adjoins `name` to `base`: the result is a function of the
/// two, and nothing more is claimed of it.
#[verifier::external_body]
fn join(base: &Path, name: &str) -> (path: PathBuf)
    ensures
        path == joined(base, name@),
{
    base.join(name)
}

/// Whether `path` is the path of the file `name` as a file of the directory
/// `base` names it: `name` adjoined to `base` and owned, or, where no
/// directory is given, borrowed and holding `name` itself.
pub open spec fn is_concat(base: Option<&Path>, name: Seq<char>, path: Cow<Path>) -> bool {
    match base {
        Some(directory) => path == Cow::<Path>::Owned(joined(directory, name)),
        None => path matches Cow::Borrowed(borrowed) && path_text(borrowed) == name,
    }
}

/// The path of the file `name` as a file of the directory `base` names it:
/// `name` adjoined to `base` and owned, or, where no directory is given,
/// `name` itself and borrowed.
pub fn concat_path<'a>(base: Option<&Path>, name: &'a str) -> (path: Cow<'a, Path>)
    ensures
        is_concat(base, name@, path),
{
    match base {
        Some(base) => Cow::Owned(join(base, name)),
        None => Cow::Borrowed(as_path(name)),
    }
}

} // verus!
