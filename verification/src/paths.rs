//! Paths as texts: components with `/` between them.

use vstd::prelude::*;
use vstd::string::{StrSliceExecFns, StringExecFns};

verus! {

/// The path of `name` inside the directory `dir`. A name that starts at the
/// root stands for itself; an empty directory adds nothing; otherwise the two
/// are set side by side with exactly one `/` between them where `dir` does not
/// already end in one.
pub open spec fn joined(dir: Seq<char>, name: Seq<char>) -> Seq<char> {
    if name.len() > 0 && name[0] == '/' {
        name
    } else if dir.len() == 0 {
        name
    } else if dir.last() == '/' {
        dir + name
    } else {
        dir + seq!['/'] + name
    }
}

/// Joins a directory and a name into one path.
pub fn join_path(dir: &str, name: &str) -> (path: String)
    ensures
        path@ == joined(dir@, name@),
{
    if name.unicode_len() > 0 && name.get_char(0) == '/' {
        return name.to_owned();
    }
    let len = dir.unicode_len();
    if len == 0 {
        return name.to_owned();
    }
    let mut path = dir.to_owned();
    if dir.get_char(len - 1) != '/' {
        proof {
            reveal_strlit("/");
        }
        path.append("/");
    }
    path.append(name);
    path
}

} // verus!
