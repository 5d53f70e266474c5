//! Paths as text, and what was found at a path.
use vstd::prelude::*;
use vstd::string::StringExecFns;

use crate::text::characters;

verus! {

/// What was found at a path when it was looked at.
#[derive(Debug, Clone, Copy, PartialEq, Eq, Structural)]
pub enum PathStatus {
    /// Nothing is there.
    Missing,
    /// A regular file.
    File,
    /// A directory.
    Directory,
    /// Something that is neither a regular file nor a directory.
    Other,
}

impl PathStatus {
    /// Something is there.
    pub open spec fn present(self) -> bool {
        self != PathStatus::Missing
    }

    /// Whether something is there.
    pub fn is_present(&self) -> (found: bool)
        ensures
            found == self.present(),
    {
        !matches!(self, PathStatus::Missing)
    }

    /// Whether a directory is there.
    pub fn is_dir(&self) -> (found: bool)
        ensures
            found == (*self == PathStatus::Directory),
    {
        matches!(self, PathStatus::Directory)
    }

    /// Whether a regular file is there.
    pub fn is_file(&self) -> (found: bool)
        ensures
            found == (*self == PathStatus::File),
    {
        matches!(self, PathStatus::File)
    }
}

/// The path `rel` taken from the directory `base`: `rel` itself where it
/// begins with `/`, and else `base` and `rel` with exactly one `/` put
/// between them, unless `base` is empty or brings its own.
pub open spec fn join_path(base: Seq<char>, rel: Seq<char>) -> Seq<char> {
    if rel.len() > 0 && rel[0] == '/' {
        rel
    } else if base.len() == 0 || base.last() == '/' {
        base + rel
    } else {
        base + seq!['/'] + rel
    }
}

/// The path `rel` taken from the directory `base`.
pub fn join(base: &str, rel: &str) -> (path: String)
    ensures
        path@ == join_path(base@, rel@),
{
    let rel_chars = characters(rel);
    if rel_chars.len() > 0 && rel_chars[0] == '/' {
        return rel.to_owned();
    }
    let base_chars = characters(base);
    let mut path = base.to_owned();
    if base_chars.len() > 0 && base_chars[base_chars.len() - 1] != '/' {
        proof {
            reveal_strlit("/");
            assert("/"@ =~= seq!['/']);
        }
        path.append("/");
    }
    path.append(rel);
    path
}

} // verus!
