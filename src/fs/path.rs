//! Path operations the navigation relies on, taken from `std::path`.

use vstd::prelude::*;
use vstd::string::StrSliceExecFns;

verus! {

/// What `std::path::Path::parent` gives for a path.
pub uninterp spec fn path_parent(p: Seq<char>) -> Option<Seq<char>>;

/// What `std::path::Path::file_name` gives for a path.
pub uninterp spec fn path_file_name(p: Seq<char>) -> Option<Seq<char>>;

/// `name` joined to `dir` as `std::path::Path::join` does on Unix: an
/// absolute `name` replaces `dir`; otherwise `name` follows `dir`, with a `/`
/// between them unless `dir` is empty or already ends in one.
pub open spec fn path_join(dir: Seq<char>, name: Seq<char>) -> Seq<char> {
    if name.len() > 0 && name[0] == '/' {
        name
    } else if dir.len() == 0 || dir.last() == '/' {
        dir + name
    } else {
        dir + seq!['/'] + name
    }
}

/// `a` is a leading part of `b`, and shorter.
pub open spec fn strict_prefix(a: Seq<char>, b: Seq<char>) -> bool {
    a.len() < b.len() && a == b.subrange(0, a.len() as int)
}

/// Relies on `std::path::Path::parent`: the path without its last component
/// (a leading part of it), or `None` for a root or an empty path; a function
/// of the text alone.
#[verifier::external_body]
pub(crate) fn parent(p: &str) -> (r: Option<String>)
    ensures
        r is Some == path_parent(p@) is Some,
        r is Some ==> r.unwrap()@ == path_parent(p@).unwrap(),
        r is Some ==> strict_prefix(r.unwrap()@, p@),
        p@.len() == 0 ==> r is None,
        p@ == seq!['/'] ==> r is None,
{
    std::path::Path::new(p).parent().map(|q| q.to_string_lossy().into_owned())
}

/// Relies on `std::path::Path::file_name`: the last component, or `None`
/// when the path ends in `..` or is a root; a function of the text alone.
#[verifier::external_body]
pub(crate) fn file_name(p: &str) -> (r: Option<String>)
    ensures
        r is Some == path_file_name(p@) is Some,
        r is Some ==> r.unwrap()@ == path_file_name(p@).unwrap(),
{
    std::path::Path::new(p).file_name().map(|n| n.to_string_lossy().into_owned())
}

/// `name` joined to `dir` (see `path_join`).
pub(crate) fn join(dir: &str, name: &str) -> (r: String)
    ensures
        r@ == path_join(dir@, name@),
{
    let name_len = name.unicode_len();
    if name_len > 0 && name.get_char(0) == '/' {
        return String::from_str(name);
    }
    let dir_len = dir.unicode_len();
    let mut r = String::from_str(dir);
    if dir_len > 0 && dir.get_char(dir_len - 1) != '/' {
        proof {
            reveal_strlit("/");
        }
        r.append("/");
        assert("/"@ =~= seq!['/']);
    }
    r.append(name);
    r
}

} // verus!
