//! File paths, taken apart the way the machine does.
use vstd::prelude::*;

use crate::outside::{parent_of, stem_of};
use crate::text::{opt_text, same_text};

verus! {

broadcast use vstd::string::group_string_axioms;

// ---------------------------------------------------------------------------
// Paths that every machine reads alike
// ---------------------------------------------------------------------------

/// Whether a path is taken apart at `/` alone on every machine: it holds no
/// `\` and no `:`, which some machines read as a separator and as the end of
/// a drive, and does not begin with `//`, which some read as a server.
pub open spec fn ordinary(p: Seq<char>) -> bool {
    &&& !p.contains('\\')
    &&& !p.contains(':')
    &&& !(p.len() >= 2 && p[0] == '/' && p[1] == '/')
}

/// `p` without the separators and the `/.` that it ends in. The root stays.
pub open spec fn trim_tail(p: Seq<char>) -> Seq<char>
    decreases p.len(),
{
    if p.len() > 1 && (p.last() == '/' || (p.last() == '.' && p[p.len() - 2] == '/')) {
        trim_tail(p.drop_last())
    } else {
        p
    }
}

/// The position of the last `c` in `p`, or -1 where there is none.
pub open spec fn last_index(p: Seq<char>, c: char) -> int
    decreases p.len(),
{
    if p.len() == 0 {
        -1
    } else if p.last() == c {
        p.len() - 1
    } else {
        last_index(p.drop_last(), c)
    }
}

/// A path without its last part; nothing for the root and the empty path.
pub open spec fn parent(p: Seq<char>) -> Option<Seq<char>> {
    let t = trim_tail(p);
    if t.len() == 0 || t == "/"@ {
        None
    } else {
        Some(trim_tail(t.take(last_index(t, '/') + 1)))
    }
}

/// The last part of a path; nothing where it is `.` or `..` or missing.
pub open spec fn file_name(p: Seq<char>) -> Option<Seq<char>> {
    let t = trim_tail(p);
    let name = t.skip(last_index(t, '/') + 1);
    if name.len() == 0 || name == "."@ || name == ".."@ {
        None
    } else {
        Some(name)
    }
}

/// The last part of a path without its extension.
pub open spec fn file_stem(p: Seq<char>) -> Option<Seq<char>> {
    match file_name(p) {
        Some(name) => if last_index(name, '.') <= 0 {
            Some(name)
        } else {
            Some(name.take(last_index(name, '.')))
        },
        None => None,
    }
}

// ---------------------------------------------------------------------------
// Paths on this machine
// ---------------------------------------------------------------------------

/// A path to a file, and what the machine makes of it: the path without its
/// last part, and that part without its extension.
#[derive(Debug, PartialEq, Eq)]
pub struct FilePath {
    pub text: String,
    pub parent: Option<String>,
    pub stem: Option<String>,
}

#[verifier::ext_equal]
pub struct FilePathModel {
    pub text: Seq<char>,
    pub parent: Option<Seq<char>>,
    pub stem: Option<Seq<char>>,
}

impl View for FilePath {
    type V = FilePathModel;

    open spec fn view(&self) -> FilePathModel {
        FilePathModel {
            text: self.text@,
            parent: opt_text(self.parent),
            stem: opt_text(self.stem),
        }
    }
}

impl Clone for FilePath {
    fn clone(&self) -> (r: Self)
        ensures
            r@ == self@,
    {
        FilePath {
            text: self.text.clone(),
            parent: match &self.parent {
                Some(parent) => Some(parent.clone()),
                None => None,
            },
            stem: match &self.stem {
                Some(stem) => Some(stem.clone()),
                None => None,
            },
        }
    }
}

/// Paths by value.
pub open spec fn paths_view(paths: Seq<FilePath>) -> Seq<FilePathModel> {
    Seq::new(paths.len(), |i: int| paths[i]@)
}

impl FilePath {
    /// A path as it is written. What the machine makes of one that is not
    /// ordinary is its own affair.
    pub fn new(text: String) -> (r: FilePath)
        ensures
            r@.text == text@,
            ordinary(text@) ==> r@.parent == parent(text@) && r@.stem == file_stem(text@),
    {
        let parent = parent_of(text.as_str());
        let stem = stem_of(text.as_str());
        FilePath { text, parent, stem }
    }
}

/// The directory that a file's relative paths start from: the directory it is
/// in, or `.` where its path names none.
pub open spec fn base_dir(p: FilePathModel) -> Seq<char> {
    match p.parent {
        Some(dir) => if dir.len() == 0 {
            "."@
        } else {
            dir
        },
        None => "."@,
    }
}

/// The directory that a file's relative paths start from: the directory it is
/// in, or `.` where its path names none.
pub fn base_dir_of(path: &FilePath) -> (r: String)
    ensures
        r@ == base_dir(path@),
{
    proof {
        reveal_strlit("");
    }
    match &path.parent {
        Some(dir) => {
            assert(dir@.len() == 0 ==> dir@ =~= ""@);
            if same_text(dir.as_str(), "") {
                ".".to_owned()
            } else {
                dir.clone()
            }
        },
        None => ".".to_owned(),
    }
}

} // verus!
