//! Texts that are made to be unlike any other.

use vstd::prelude::*;

verus! {

/// Whether a character is a digit of a number to base 16, with small letters.
pub open spec fn is_hex(c: char) -> bool {
    '0' <= c <= '9' || 'a' <= c <= 'f'
}

/// Whether a text is a random UUID: 32 digits in groups with hyphens between them, of
/// which one tells the version and one the variant.
pub open spec fn is_uuid(s: Seq<char>) -> bool {
    &&& s.len() == 36
    &&& forall|i: int|
        0 <= i < 36 ==> if i == 8 || i == 13 || i == 18 || i == 23 {
            #[trigger] s[i] == '-'
        } else {
            is_hex(s[i])
        }
    &&& s[14] == '4'
    &&& s[19] == '8' || s[19] == '9' || s[19] == 'a' || s[19] == 'b'
}

/// `uuid::Uuid::new_v4`, printed by its `Display`: a random UUID, with small letters and
/// hyphens. Which one it is is left to chance: nothing says that two of them differ. It
/// takes a system that has random bytes to give.
#[verifier::external_body]
pub(crate) fn random_uuid() -> (r: String)
    ensures
        is_uuid(r@),
{
    uuid::Uuid::new_v4().to_string()
}

} // verus!
