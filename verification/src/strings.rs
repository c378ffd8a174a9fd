//! The operations of the standard library's strings that the crate relies on.

use vstd::prelude::*;

verus! {

/// `String::push`: appends one character at the end.
pub assume_specification[ String::push ](s: &mut String, c: char)
    ensures
        final(s)@ == old(s)@.push(c),
;

/// `str`'s `==`: two texts are equal when they hold the same characters.
#[verifier::external_body]
pub(crate) fn same_text(a: &str, b: &str) -> (r: bool)
    ensures
        r == (a@ == b@),
{
    a == b
}

/// A character with the letters from `A` to `Z` made small.
pub open spec fn small(c: char) -> char {
    if 'A' <= c <= 'Z' {
        ((c as u32) + 32) as char
    } else {
        c
    }
}

/// A text with the letters from `A` to `Z` made small.
pub open spec fn ascii_lowercase(s: Seq<char>) -> Seq<char> {
    s.map_values(|c: char| small(c))
}

/// Whether two texts differ in nothing but the case of the letters from `A` to `Z`.
pub open spec fn same_but_for_case(s: Seq<char>, t: Seq<char>) -> bool {
    ascii_lowercase(s) == ascii_lowercase(t)
}

/// Whether `lower` is the lowercase equivalent of every text that differs from `s` in
/// nothing but the case of the letters from `A` to `Z`.
pub open spec fn ignores_case(s: Seq<char>, lower: Seq<char>) -> bool {
    forall|t: Seq<char>| same_but_for_case(s, t) ==> #[trigger] lowercase(t) == lower
}

/// The lowercase equivalent of a text, as the standard library has it.
pub uninterp spec fn lowercase(s: Seq<char>) -> Seq<char>;

/// `str::to_lowercase`: the lowercase equivalent of a text, after the Unicode
/// property `Lowercase`. In an ASCII text it makes the letters small and changes
/// nothing else. In any text the case of the letters from `A` to `Z` makes no difference.
#[verifier::external_body]
pub(crate) fn to_lowercase(s: &str) -> (r: String)
    ensures
        r@ == lowercase(s@),
        vstd::utf8::is_ascii_chars(s@) ==> r@ == ascii_lowercase(s@),
        ignores_case(s@, r@),
{
    s.to_lowercase()
}

/// How the standard library's `Debug` shows a text that may be missing.
pub uninterp spec fn debug_shown(s: Option<Seq<char>>) -> Seq<char>;

/// The characters that `Debug` shows as they are inside quotes, among those of ASCII.
pub open spec fn shown_as_is(s: Seq<char>) -> bool {
    forall|i: int|
        0 <= i < s.len() ==> ' ' <= #[trigger] s[i] <= '~' && s[i] != '"' && s[i] != '\\'
}

/// `Option<String>`'s `Debug`: `None`, or `Some` around the text in quotes. What
/// stands in the quotes is the text itself where it is printable ASCII without
/// quotes and backslashes; how other characters are escaped is not said here.
#[verifier::external_body]
pub(crate) fn debug_text(s: &Option<String>) -> (r: String)
    ensures
        r@ == debug_shown(crate::text::optional(*s)),
        s is None ==> r@ == "None"@,
        (s matches Some(t) && shown_as_is(t@)) ==> r@ == "Some(\""@ + s->0@ + "\")"@,
{
    format!("{:?}", s)
}

} // verus!
