//! Paths, as texts.

use vstd::prelude::*;

verus! {

/// Whether a character separates the names of a path, on one system or another.
pub open spec fn is_separator(c: char) -> bool {
    c == '/' || c == '\\'
}

/// Whether a text has no separators.
pub open spec fn is_one_name(s: Seq<char>) -> bool {
    forall|i: int| 0 <= i < s.len() ==> !is_separator(#[trigger] s[i])
}

/// Whether a text ends within the name of a file, on every system. It is not empty, and ends
/// neither in a separator nor in the colon of a drive. With two separators in front it could
/// be the name of a share, which is no file.
pub open spec fn ends_in_name(path: Seq<char>) -> bool {
    &&& path.len() > 0
    &&& !is_separator(path.last())
    &&& path.last() != ':'
    &&& !(path.len() >= 2 && is_separator(path[0]) && is_separator(path[1]))
}

/// Whether a text can be the extension of a file: it is not empty, and has neither dots nor
/// separators.
pub open spec fn is_extension(s: Seq<char>) -> bool {
    s.len() > 0 && is_one_name(s) && !s.contains('.')
}

/// A text with an extension.
pub open spec fn extended(base: Seq<char>, extension: Seq<char>) -> Seq<char> {
    base + "."@ + extension
}

/// Whether `r` is a path with the extension of its file replaced, or added if it has none.
pub open spec fn has_new_extension(path: Seq<char>, extension: Seq<char>, r: Seq<char>) -> bool {
    &&& r == path || exists|n: int|
        0 < n <= path.len() && r == #[trigger] extended(path.take(n), extension)
    &&& forall|base: Seq<char>, before: Seq<char>|
        ends_in_name(base) && is_extension(before) && path == #[trigger] extended(base, before)
            ==> r == extended(base, extension)
    &&& ends_in_name(path) && !path.contains('.') ==> r == extended(path, extension)
}

/// `PathBuf::set_extension`: a path with the extension of its file replaced, or added if it
/// has none. What stands before the extension is kept, and what follows it is not; a path
/// without a file name stays as it is. Which part of a path is the name of its file depends
/// on the system: it is said here for paths that end in one on every system.
#[verifier::external_body]
pub(crate) fn with_extension(path: &str, extension: &str) -> (r: String)
    requires
        extension@.len() > 0,
        is_one_name(extension@),
    ensures
        has_new_extension(path@, extension@, r@),
{
    let mut changed = std::path::PathBuf::from(path);
    changed.set_extension(extension);
    changed.to_string_lossy().into_owned()
}

/// The extension that a path has is ignored where another replaces it: paths that differ in
/// their extensions only become the same.
pub proof fn only_the_stem_counts(
    base: Seq<char>,
    one: Seq<char>,
    other: Seq<char>,
    extension: Seq<char>,
    r: Seq<char>,
    q: Seq<char>,
)
    requires
        ends_in_name(base),
        is_extension(one),
        is_extension(other),
        has_new_extension(extended(base, one), extension, r),
        has_new_extension(extended(base, other), extension, q),
    ensures
        r == extended(base, extension),
        q == r,
{
}

} // verus!
