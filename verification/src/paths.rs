//! Paths as text: components separated by `/`, joined the way a Unix path is
//! extended by another.

use vstd::prelude::*;

verus! {

/// The character that separates the components of a path.
pub const SEPARATOR: char = '/';

/// A path is absolute when it starts at the root, that is with a separator.
pub open spec fn spec_is_absolute(path: Seq<char>) -> bool {
    path.len() > 0 && path[0] == SEPARATOR
}

/// What `base` extended by `path` is: an absolute `path` replaces `base`;
/// otherwise `path` is appended, after a separator unless `base` is empty or
/// already ends in one.
pub open spec fn spec_join(base: Seq<char>, path: Seq<char>) -> Seq<char> {
    if spec_is_absolute(path) {
        path
    } else if base.len() == 0 || base.last() == SEPARATOR {
        base + path
    } else {
        base + seq![SEPARATOR] + path
    }
}

/// Whether `path` starts at the root.
pub fn is_absolute(path: &str) -> (absolute: bool)
    ensures
        absolute == spec_is_absolute(path@),
{
    path.unicode_len() > 0 && path.get_char(0) == SEPARATOR
}

/// Extends `base` by `path`.
pub fn join(base: &str, path: &str) -> (joined: String)
    ensures
        joined@ == spec_join(base@, path@),
{
    if is_absolute(path) {
        return String::from_str(path);
    }
    let base_len: usize = base.unicode_len();
    let mut joined = String::from_str(base);
    if base_len > 0 && base.get_char(base_len - 1) != SEPARATOR {
        proof {
            reveal_strlit("/");
            assert("/"@ =~= seq![SEPARATOR]);
        }
        joined.append("/");
    }
    joined.append(path);
    joined
}

} // verus!
