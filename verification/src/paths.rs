//! Unix path text operations (`Path::join`, `Path::is_absolute`).
use vstd::prelude::*;

use crate::text::{push_str, str_ends_with, str_starts_with, ends_with, starts_with};

verus! {

/// `Path::is_absolute` on Unix: the path starts with `/`.
pub open spec fn is_absolute(p: Seq<char>) -> bool {
    starts_with(p, "/"@)
}

/// `Path::join` on Unix: an absolute right side replaces the left; otherwise
/// the parts are joined by `/` unless the left is empty or already ends in `/`.
pub open spec fn path_join(a: Seq<char>, b: Seq<char>) -> Seq<char> {
    if is_absolute(b) {
        b
    } else if a.len() == 0 || ends_with(a, "/"@) {
        a + b
    } else {
        a + "/"@ + b
    }
}

pub fn is_absolute_path(p: &str) -> (r: bool)
    ensures
        r == is_absolute(p@),
{
    str_starts_with(p, "/")
}

pub fn join_path(a: &str, b: &str) -> (r: String)
    ensures
        r@ == path_join(a@, b@),
{
    if is_absolute_path(b) {
        return String::from_str(b);
    }
    let mut r = String::from_str(a);
    if !(a.unicode_len() == 0 || str_ends_with(a, "/")) {
        push_str(&mut r, "/");
    }
    push_str(&mut r, b);
    r
}

/// `resolve_maybe_relative`: absolute paths stay, relative ones are joined
/// onto `base`.
pub fn resolve_maybe_relative(base: &str, path: &str) -> (r: String)
    ensures
        r@ == (if is_absolute(path@) { path@ } else { path_join(base@, path@) }),
{
    if is_absolute_path(path) {
        String::from_str(path)
    } else {
        join_path(base, path)
    }
}

} // verus!
