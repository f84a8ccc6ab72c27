//! Resolution of the target of a directory change.
use vstd::prelude::*;
use vstd::string::StrSliceExecFns;

verus! {

/// A path is taken as it is when it starts with `/` or when its second
/// character is `:` (a drive letter such as `C:`).
pub open spec fn is_absolute_target_spec(path: Seq<char>) -> bool {
    (path.len() > 0 && path[0] == '/') || (path.len() > 1 && path[1] == ':')
}

/// Tells whether `path` is taken as it is rather than joined to the current
/// directory.
pub fn is_absolute_target(path: &str) -> (r: bool)
    ensures
        r == is_absolute_target_spec(path@),
{
    let n = path.unicode_len();
    if n > 0 && path.get_char(0) == '/' {
        return true;
    }
    n > 1 && path.get_char(1) == ':'
}

/// True when `c` separates path components on some platform.
pub open spec fn is_separator(c: char) -> bool {
    c == '/' || c == '\\'
}

/// True when `s` starts with `c`.
pub open spec fn starts_with_char(s: Seq<char>, c: char) -> bool {
    s.len() > 0 && s[0] == c
}

/// A relative path that no platform reads as rooted or prefixed: it starts
/// with no separator and has no drive mark.
pub open spec fn is_plain_relative(path: Seq<char>) -> bool {
    &&& !(path.len() > 0 && is_separator(path[0]))
    &&& !(path.len() > 1 && path[1] == ':')
}

/// `r` is `rel` adjoined to `base`: the two written one after the other, with
/// at most one separator between them.
pub open spec fn adjoined(base: Seq<char>, rel: Seq<char>, r: Seq<char>) -> bool {
    ||| r == base + rel
    ||| r == base + seq!['/'] + rel
    ||| r == base + seq!['\\'] + rel
}

/// Relies on `std::path::Path::join`: a relative path is pushed onto the base,
/// with a separator between them where the base does not already end in one.
/// Stated only where the base is not a Windows verbatim or UNC path (which
/// start with a backslash) and the pushed path is plainly relative.
#[verifier::external_body]
fn join_path(base: &str, rel: &str) -> (r: String)
    ensures
        is_plain_relative(rel@) && !starts_with_char(base@, '\\') ==> adjoined(base@, rel@, r@),
{
    std::path::Path::new(base).join(rel).to_string_lossy().into_owned()
}

/// The directory that a change to `path` aims at, given the current directory
/// `current`: `path` itself when it is absolute (see `is_absolute_target`),
/// else `path` joined to `current`.
pub fn resolve_target(current: &str, path: &str) -> (r: String)
    ensures
        is_absolute_target_spec(path@) ==> r@ == path@,
        !is_absolute_target_spec(path@) && is_plain_relative(path@) && !starts_with_char(
            current@,
            '\\',
        ) ==> adjoined(current@, path@, r@),
{
    if is_absolute_target(path) {
        path.to_owned()
    } else {
        join_path(current, path)
    }
}

} // verus!
