//! Path-string helpers: joining a relative path the way `Path::join` does,
//! the components `Path::components` yields, and what `Path::file_name` and
//! `Path::starts_with` make of them.

use vstd::prelude::*;

use crate::text::opt_view;

verus! {

/// `p.split('/')`: the runs between slashes, empty ones included.
pub open spec fn slash_segments(p: Seq<char>) -> Seq<Seq<char>>
    decreases p.len(),
{
    if p.len() == 0 {
        seq![Seq::empty()]
    } else if p.last() == '/' {
        slash_segments(p.drop_last()).push(Seq::empty())
    } else {
        let s = slash_segments(p.drop_last());
        s.update(s.len() - 1, s.last().push(p.last()))
    }
}

/// A Unix path's components as `Path::components` yields them, each as a
/// string: `/` for the root, `.` for a leading current-directory component,
/// then every non-empty segment other than `.` (`..` stays). Repeated and
/// trailing slashes, and `.` past the start, are normalized away.
pub open spec fn path_components(p: Seq<char>) -> Seq<Seq<char>> {
    let rest = slash_segments(p).filter(|x: Seq<char>| x.len() > 0 && x != "."@);
    if p.len() > 0 && p[0] == '/' {
        seq!["/"@] + rest
    } else if p == "."@ || (p.len() >= 2 && p[0] == '.' && p[1] == '/') {
        seq!["."@] + rest
    } else {
        rest
    }
}

/// `Path::file_name`: the last component when it is a normal one — not the
/// root, `.` or `..` — else `None`.
pub open spec fn path_file_name(path: Seq<char>) -> Option<Seq<char>> {
    let c = path_components(path);
    if c.len() == 0 || c.last() == "/"@ || c.last() == "."@ || c.last() == ".."@ {
        None
    } else {
        Some(c.last())
    }
}

/// `std::path::Path::file_name`, as a string: the path's final component, or
/// `None` when it has none (the root, an empty path, one ending in `..`).
/// Also stated: a final component is a non-empty run of characters without a
/// `/`.
#[verifier::external_body]
pub(crate) fn file_name(path: &str) -> (r: Option<String>)
    ensures
        opt_view(r) == path_file_name(path@),
        r matches Some(n) ==> n@.len() > 0 && !n@.contains('/'),
{
    std::path::Path::new(path).file_name().and_then(|n| n.to_str()).map(|n| n.to_string())
}

/// `base.join(rel)` for a relative `rel`: a `/` is inserted unless `base` is
/// empty or already ends in one.
pub open spec fn join_path(base: Seq<char>, rel: Seq<char>) -> Seq<char> {
    if base.len() == 0 || base.last() == '/' {
        base + rel
    } else {
        base + "/"@ + rel
    }
}

/// `Path::new(base).join(rel)` for a relative `rel` (one not starting with `/`).
pub fn join_rel(base: &str, rel: &str) -> (s: String)
    ensures
        s@ == join_path(base@, rel@),
{
    let mut s = String::from_str(base);
    let n = base.unicode_len();
    if n > 0 && base.get_char(n - 1) == '/' {
        s.append(rel);
    } else if n == 0 {
        s.append(rel);
    } else {
        s.append("/");
        s.append(rel);
    }
    s
}

/// `Path::starts_with`: `base`'s components are a prefix of `path`'s.
pub open spec fn path_starts_with_spec(path: Seq<char>, base: Seq<char>) -> bool {
    let a = path_components(path);
    let b = path_components(base);
    b.len() <= a.len() && a.subrange(0, b.len() as int) == b
}

/// `std::path::Path::starts_with`: whether `base` is a prefix of `path` by
/// whole components (`/a/bc` does not start with `/a/b`).
#[verifier::external_body]
pub(crate) fn path_starts_with(path: &str, base: &str) -> (r: bool)
    ensures
        r == path_starts_with_spec(path@, base@),
{
    std::path::Path::new(path).starts_with(std::path::Path::new(base))
}

} // verus!
