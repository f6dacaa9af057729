//! Host paths as text, with `/` between their components.

use vstd::prelude::*;
use vstd::string::StrSliceExecFns;
use vstd::string::StringExecFns;
use crate::text::starts_with;

verus! {

/// The path `name` as seen from `dir`: `name` itself where it starts at the
/// root or `dir` is empty, else `dir`, one `/` and `name`.
pub open spec fn joined_path(dir: Seq<char>, name: Seq<char>) -> Seq<char> {
    if dir.len() == 0 || (name.len() > 0 && name[0] == '/') {
        name
    } else if dir.last() == '/' {
        dir + name
    } else {
        dir + seq!['/'] + name
    }
}

/// Joins `name` to `dir`.
pub fn join_path(dir: &str, name: &str) -> (r: String)
    ensures
        r@ == joined_path(dir@, name@),
{
    proof {
        reveal_strlit("/");
    }
    let dir_len = dir.unicode_len();
    if dir_len == 0 || (name.unicode_len() > 0 && name.get_char(0) == '/') {
        String::from_str(name)
    } else {
        let mut s = String::from_str(dir);
        if dir.get_char(dir_len - 1) != '/' {
            s.append("/");
        }
        s.append(name);
        assert(s@ =~= joined_path(dir@, name@));
        s
    }
}

/// The place of the last `/` in `path`, or -1 where it holds none.
pub open spec fn last_slash(path: Seq<char>) -> int
    decreases path.len(),
{
    if path.len() == 0 {
        -1
    } else if path.last() == '/' {
        path.len() - 1
    } else {
        last_slash(path.drop_last())
    }
}

/// The last `/` of a path is its last: no `/` follows it, and it is one.
pub proof fn last_slash_is_last(path: Seq<char>)
    ensures
        -1 <= last_slash(path) < path.len(),
        last_slash(path) >= 0 ==> path[last_slash(path)] == '/',
        forall|j: int| last_slash(path) < j < path.len() ==> path[j] != '/',
    decreases path.len(),
{
    if path.len() > 0 && path.last() != '/' {
        let head = path.drop_last();
        last_slash_is_last(head);
        assert forall|j: int| last_slash(path) < j < path.len() implies path[j] != '/' by {
            if j < head.len() {
                assert(head[j] == path[j]);
            }
        }
    }
}

/// The directory that holds `path`: the text before its last `/`, the root
/// for a path directly below it, the empty path for a single relative name,
/// and nothing for the root and for the empty path.
pub open spec fn parent_text(path: Seq<char>) -> Option<Seq<char>> {
    let at = last_slash(path);
    if path.len() == 0 {
        None
    } else if at < 0 {
        Some(Seq::empty())
    } else if at == 0 {
        if path.len() == 1 {
            None
        } else {
            Some(seq!['/'])
        }
    } else {
        Some(path.take(at))
    }
}

/// The directory that holds `path`.
pub fn parent_dir(path: &str) -> (r: Option<String>)
    ensures
        r.deep_view() == parent_text(path@),
{
    let n = path.unicode_len();
    if n == 0 {
        return None;
    }
    let mut i: usize = n;
    assert(path@.take(n as int) =~= path@);
    while i > 0 && path.get_char(i - 1) != '/'
        invariant
            n == path@.len(),
            i <= n,
            last_slash(path@) == last_slash(path@.take(i as int)),
        decreases i,
    {
        assert(path@.take(i as int).drop_last() =~= path@.take(i - 1));
        i -= 1;
    }
    proof {
        reveal_strlit("/");
        assert("/"@ =~= seq!['/']);
    }
    if i == 0 {
        Some(String::new())
    } else if i == 1 {
        if n == 1 {
            None
        } else {
            Some(String::from_str("/"))
        }
    } else {
        let head = path.substring_char(0, i - 1);
        assert(head@ =~= path@.take(i - 1));
        Some(String::from_str(head))
    }
}

/// A directory's path without the one `/` that may end it. The root stays as
/// it is.
pub open spec fn trimmed_dir(dir: Seq<char>) -> Seq<char> {
    if dir.len() > 1 && dir.last() == '/' {
        dir.drop_last()
    } else {
        dir
    }
}

/// Whether `path` is `dir` or lies below it: `dir`, without the `/` that may
/// end it, is a prefix of `path` that ends where a component of `path` ends.
/// Every path lies within the empty one. The paths are compared as text.
pub open spec fn path_within(path: Seq<char>, dir: Seq<char>) -> bool {
    let d = trimmed_dir(dir);
    d.len() == 0 || (d.is_prefix_of(path) && (path.len() == d.len() || d.last() == '/'
        || path[d.len() as int] == '/'))
}

/// Whether `path` is `dir` or lies below it.
pub fn is_within(path: &str, dir: &str) -> (r: bool)
    ensures
        r == path_within(path@, dir@),
{
    let n = dir.unicode_len();
    if n == 0 {
        return true;
    }
    let d = if n > 1 && dir.get_char(n - 1) == '/' {
        dir.substring_char(0, n - 1)
    } else {
        dir
    };
    assert(d@ =~= trimmed_dir(dir@));
    let m = d.unicode_len();
    if !starts_with(path, d) {
        return false;
    }
    path.unicode_len() == m || d.get_char(m - 1) == '/' || path.get_char(m) == '/'
}

} // verus!
