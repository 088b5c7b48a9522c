//! Paths as text, under the POSIX convention: `/` separates components, and
//! a path is absolute when it starts with `/`.

use vstd::prelude::*;
use vstd::string::StringExecFns;
use crate::error::{PathStep, SessionError, SessionErrorView};
use crate::text::{option_text, result_text};

verus! {

/// Whether `path` is absolute: it starts at the root.
pub open spec fn is_absolute_path(path: Seq<char>) -> bool {
    path.len() > 0 && path[0] == '/'
}

/// `relative` adjoined to `base`. An absolute `relative` replaces `base`;
/// otherwise a separator is put between the two unless `base` is empty or
/// already ends with one.
pub open spec fn join_path(base: Seq<char>, relative: Seq<char>) -> Seq<char> {
    if is_absolute_path(relative) {
        relative
    } else if base.len() > 0 && base.last() != '/' {
        base + "/"@ + relative
    } else {
        base + relative
    }
}

/// What a path resolves to, given the outcome of looking up the current
/// directory: an absolute path is itself, a relative one is adjoined to the
/// current directory, and fails when that directory could not be had.
pub open spec fn resolved_path(input: Seq<char>, current_dir: Result<Seq<char>, Seq<char>>) -> Result<
    Seq<char>,
    SessionErrorView,
> {
    if is_absolute_path(input) {
        Ok(input)
    } else {
        match current_dir {
            Ok(dir) => Ok(join_path(dir, input)),
            Err(detail) => Err(
                SessionErrorView::PathResolutionFailure { step: PathStep::RelativePath, detail },
            ),
        }
    }
}

/// The views of the two sides of a path-resolution result.
pub open spec fn path_result_view(result: Result<String, SessionError>) -> Result<
    Seq<char>,
    SessionErrorView,
> {
    match result {
        Ok(path) => Ok(path@),
        Err(error) => Err(error@),
    }
}

/// Whether `path` is absolute.
pub fn is_absolute(path: &str) -> (absolute: bool)
    ensures
        absolute == is_absolute_path(path@),
{
    path.unicode_len() > 0 && path.get_char(0) == '/'
}

/// Adjoins `relative` to `base`.
pub fn join(base: &str, relative: &str) -> (joined: String)
    ensures
        joined@ == join_path(base@, relative@),
{
    if is_absolute(relative) {
        return relative.to_owned();
    }
    let mut joined = base.to_owned();
    let n = base.unicode_len();
    if n > 0 && base.get_char(n - 1) != '/' {
        joined.append("/");
    }
    joined.append(relative);
    joined
}

/// Resolves `input` to an absolute path against the current directory, whose
/// lookup the caller has made: `Ok` with the directory, or `Err` with the
/// reason it could not be had.
pub fn resolve_path(input: &str, current_dir: &Result<String, String>) -> (resolved: Result<
    String,
    SessionError,
>)
    ensures
        path_result_view(resolved) == resolved_path(input@, result_text(*current_dir)),
{
    if is_absolute(input) {
        return Ok(input.to_owned());
    }
    match current_dir {
        Ok(dir) => Ok(join(dir.as_str(), input)),
        Err(detail) => Err(
            SessionError::path_resolution_failure(PathStep::RelativePath, detail.as_str()),
        ),
    }
}

/// What a startup path was found to be on disk.
#[derive(Clone, Copy, Debug, PartialEq, Eq, Structural)]
pub enum PathKind {
    /// A directory.
    Directory,
    /// A regular file.
    File,
    /// Neither of the two.
    Other,
}

/// What `std::path::Path::parent` gives for `path`: the path without its
/// final component, or `None` where it ends in a root or is empty.
pub uninterp spec fn path_parent(path: Seq<char>) -> Option<Seq<char>>;

/// Calls `std::path::Path::parent`.
///
/// Trusted: the result is `path_parent` of the path, as text.
#[verifier::external_body]
fn parent_of(path: &str) -> (parent: Option<String>)
    ensures
        option_text(parent) == path_parent(path@),
{
    match std::path::Path::new(path).parent() {
        Some(parent) => Some(parent.to_string_lossy().into_owned()),
        None => None,
    }
}

/// The text reported for a file path without a parent.
pub open spec fn no_parent_text(path: Seq<char>) -> Seq<char> {
    "failed to determine workspace root for file path "@ + path
}

/// The text reported for a startup path that is neither a file nor a directory.
pub open spec fn not_file_or_directory_text(path: Seq<char>) -> Seq<char> {
    "startup path must be a file or directory: "@ + path
}

/// The workspace root for a startup path: a directory is its own root, a
/// file's root is its parent, and anything else has none.
pub open spec fn workspace_root(path: Seq<char>, kind: PathKind, parent: Option<Seq<char>>) -> Result<
    Seq<char>,
    Seq<char>,
> {
    match kind {
        PathKind::Directory => Ok(path),
        PathKind::File => match parent {
            Some(root) => Ok(root),
            None => Err(no_parent_text(path)),
        },
        PathKind::Other => Err(not_file_or_directory_text(path)),
    }
}

/// Picks the workspace root for `path`, given what it is on disk and its
/// parent path.
pub fn workspace_root_from(path: String, kind: PathKind, parent: Option<String>) -> (root: Result<
    String,
    String,
>)
    ensures
        result_text(root) == workspace_root(path@, kind, option_text(parent)),
{
    match kind {
        PathKind::Directory => Ok(path),
        PathKind::File => match parent {
            Some(root) => Ok(root),
            None => {
                let mut text = "failed to determine workspace root for file path ".to_owned();
                text.append(path.as_str());
                Err(text)
            },
        },
        PathKind::Other => {
            let mut text = "startup path must be a file or directory: ".to_owned();
            text.append(path.as_str());
            Err(text)
        },
    }
}

/// Normalizes a startup path to the workspace root, given what the path was
/// found to be on disk.
pub fn normalize_workspace_root(path: String, kind: PathKind) -> (root: Result<String, String>)
    ensures
        result_text(root) == workspace_root(path@, kind, path_parent(path@)),
{
    let parent = parent_of(path.as_str());
    workspace_root_from(path, kind, parent)
}

} // verus!
