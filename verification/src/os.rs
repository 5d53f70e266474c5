//! Finding executables on the search path.
use vstd::prelude::*;
use vstd::string::StringExecFns;

use crate::paths::PathStatus;
use crate::text::{split, split_text};

verus! {

/// The character that separates the directories of the search path.
pub open spec fn path_separator(windows: bool) -> char {
    if windows {
        ';'
    } else {
        ':'
    }
}

/// The file that the program `program` would be in the directory `dir`.
pub open spec fn candidate(dir: Seq<char>, program: Seq<char>) -> Seq<char> {
    dir + seq!['/'] + program
}

/// The files that the program `program` may be, one for each directory of
/// the search path `path`, in the order of the search path.
pub open spec fn candidates(path: Seq<char>, program: Seq<char>, windows: bool) -> Seq<Seq<char>> {
    Seq::new(
        split(path, path_separator(windows)).len(),
        |i: int| candidate(split(path, path_separator(windows))[i], program),
    )
}

/// The files to look at to find the program `program`: one for each
/// directory of the search path `path`, and none where there is no search
/// path.
pub fn program_candidates(program: &str, path: Option<&str>, windows: bool) -> (files: Vec<String>)
    ensures
        files.deep_view() == match path {
            Some(path) => candidates(path@, program@, windows),
            None => Seq::empty(),
        },
{
    let mut files: Vec<String> = Vec::new();
    let path = match path {
        Some(path) => path,
        None => {
            assert(files.deep_view() =~= Seq::<Seq<char>>::empty());
            return files;
        },
    };
    let separator = if windows {
        ';'
    } else {
        ':'
    };
    let dirs = split_text(path, separator);
    let mut i: usize = 0;
    while i < dirs.len()
        invariant
            i <= dirs.len(),
            files.len() == i,
            separator == path_separator(windows),
            dirs.deep_view() == split(path@, separator),
            forall|k: int|
                0 <= k < i ==> #[trigger] files.deep_view()[k] == candidate(
                    dirs.deep_view()[k],
                    program@,
                ),
        decreases dirs.len() - i,
    {
        let ghost before = files.deep_view();
        let mut file = dirs[i].clone();
        proof {
            reveal_strlit("/");
            assert("/"@ =~= seq!['/']);
        }
        file.append("/");
        file.append(program);
        files.push(file);
        assert forall|k: int| 0 <= k <= i implies #[trigger] files.deep_view()[k] == candidate(
            dirs.deep_view()[k],
            program@,
        ) by {
            if k < i {
                assert(files.deep_view()[k] == before[k]);
            }
        }
        i += 1;
    }
    assert(files.deep_view() =~= candidates(path@, program@, windows));
    files
}

/// Whether a program is on the search path, given in `found` what is at
/// each of its candidate files: it is where something is at one of them.
pub fn is_program_in_path(found: &Vec<PathStatus>) -> (available: bool)
    ensures
        available == exists|i: int| 0 <= i < found.len() && (#[trigger] found[i]).present(),
{
    let mut i: usize = 0;
    while i < found.len()
        invariant
            i <= found.len(),
            forall|k: int| 0 <= k < i ==> !(#[trigger] found[k]).present(),
        decreases found.len() - i,
    {
        if found[i].is_present() {
            return true;
        }
        i += 1;
    }
    false
}

} // verus!
