use vstd::prelude::*;

verus! {

/// A path joined onto another as `Path::join` does on Unix: an absolute `name`
/// replaces `base`; otherwise a `/` separates them unless `base` is empty or
/// already ends in one.
pub open spec fn joined(base: Seq<char>, name: Seq<char>) -> Seq<char> {
    if name.len() > 0 && name[0] == '/' {
        name
    } else if base.len() == 0 || base.last() == '/' {
        base + name
    } else {
        base + seq!['/'] + name
    }
}

/// Joins `name` onto the directory `base`.
pub fn join_path(base: &str, name: &str) -> (path: String)
    ensures
        path@ == joined(base@, name@),
{
    proof {
        reveal_strlit("/");
    }
    let name_len = name.unicode_len();
    if name_len > 0 && name.get_char(0) == '/' {
        return String::from_str(name);
    }
    let base_len = base.unicode_len();
    let mut path = String::from_str(base);
    if base_len > 0 && base.get_char(base_len - 1) != '/' {
        path.append("/");
    }
    path.append(name);
    path
}

} // verus!
