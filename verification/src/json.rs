//! What a JSON text holds, as far as the crate reads it.

use crate::text;
use vstd::prelude::*;

verus! {

/// Why `serde_json` refuses a text as a JSON value, if it does.
pub uninterp spec fn json_error(source: Seq<char>) -> Option<Seq<char>>;

/// Why `serde_json` refuses some bytes as a JSON value, if it does.
pub uninterp spec fn json_bytes_error(bytes: Seq<u8>) -> Option<Seq<char>>;

/// The string under `key` in the JSON object that `source` writes.
pub uninterp spec fn json_text(source: Seq<char>, key: Seq<char>) -> Option<Seq<char>>;

/// The integer from 0 to 2^64 - 1 under `key` in the JSON object that `source` writes.
pub uninterp spec fn json_unsigned(source: Seq<char>, key: Seq<char>) -> Option<u64>;

/// The integer from -2^63 to 2^63 - 1 under `key` in the JSON object that `source` writes.
pub uninterp spec fn json_signed(source: Seq<char>, key: Seq<char>) -> Option<i64>;

/// The number under `key` in the JSON object that `source` writes, as it is printed.
pub uninterp spec fn json_number(source: Seq<char>, key: Seq<char>) -> Option<Seq<char>>;

/// How many elements the array under `key` has, in the JSON object that `source` writes.
pub uninterp spec fn json_length(source: Seq<char>, key: Seq<char>) -> Option<usize>;

/// The string under `key` in the element `i` of the array under `list`, in the JSON object
/// that `source` writes.
pub uninterp spec fn json_item_text(
    source: Seq<char>,
    list: Seq<char>,
    i: usize,
    key: Seq<char>,
) -> Option<Seq<char>>;

/// The integer from -2^63 to 2^63 - 1 under `key` in the element `i` of the array under
/// `list`, in the JSON object that `source` writes.
pub uninterp spec fn json_item_signed(
    source: Seq<char>,
    list: Seq<char>,
    i: usize,
    key: Seq<char>,
) -> Option<i64>;

/// The string under `inner` in the object under `outer` in the element `k` of the array
/// under `parts` in the element `i` of the array under `list`, in the JSON object that
/// `source` writes.
pub uninterp spec fn json_part_text(
    source: Seq<char>,
    list: Seq<char>,
    i: usize,
    parts: Seq<char>,
    k: usize,
    outer: Seq<char>,
    inner: Seq<char>,
) -> Option<Seq<char>>;

/// `serde_json::from_str` into a `Value`: the message of its error, if it fails.
#[verifier::external_body]
pub(crate) fn parse_error(source: &str) -> (r: Option<String>)
    ensures
        text::optional(r) == json_error(source@),
{
    serde_json::from_str::<serde_json::Value>(source).err().map(|e| e.to_string())
}

/// `serde_json::from_slice` into a `Value`: the message of its error, if it fails.
#[verifier::external_body]
pub(crate) fn bytes_error(bytes: &[u8]) -> (r: Option<String>)
    ensures
        text::optional(r) == json_bytes_error(bytes@),
{
    serde_json::from_slice::<serde_json::Value>(bytes).err().map(|e| e.to_string())
}

/// `Value::as_str` on the entry `key` of the value that `serde_json::from_str`
/// reads from `source`: the string there. There is none where the text is no JSON,
/// where the value is no object or has no such entry, and where the entry is of
/// another type.
#[verifier::external_body]
pub(crate) fn text_at(source: &str, key: &str) -> (r: Option<String>)
    ensures
        text::optional(r) == json_text(source@, key@),
        json_error(source@) is Some ==> r is None,
{
    let value: serde_json::Value = serde_json::from_str(source).ok()?;
    value[key].as_str().map(|s| s.to_string())
}

/// `Value::as_u64` on the entry `key` of the value that `serde_json::from_str`
/// reads from `source`.
#[verifier::external_body]
pub(crate) fn unsigned_at(source: &str, key: &str) -> (r: Option<u64>)
    ensures
        r == json_unsigned(source@, key@),
        json_error(source@) is Some ==> r is None,
{
    let value: serde_json::Value = serde_json::from_str(source).ok()?;
    value[key].as_u64()
}

/// `Value::as_i64` on the entry `key` of the value that `serde_json::from_str`
/// reads from `source`.
#[verifier::external_body]
pub(crate) fn signed_at(source: &str, key: &str) -> (r: Option<i64>)
    ensures
        r == json_signed(source@, key@),
        json_error(source@) is Some ==> r is None,
{
    let value: serde_json::Value = serde_json::from_str(source).ok()?;
    value[key].as_i64()
}

/// `Value::as_number` on the entry `key` of the value that `serde_json::from_str`
/// reads from `source`, printed by its `to_string`.
#[verifier::external_body]
pub(crate) fn number_at(source: &str, key: &str) -> (r: Option<String>)
    ensures
        text::optional(r) == json_number(source@, key@),
        json_error(source@) is Some ==> r is None,
{
    let value: serde_json::Value = serde_json::from_str(source).ok()?;
    value[key].as_number().map(|n| n.to_string())
}

/// Whether a number is an integer, by the text that `number_at` gives of it: one without a
/// point, or one that is so large that it is printed with a power of ten. A number with a
/// point and no power, or with a negative power, was written with a fraction or an exponent.
pub open spec fn integer_text(number: Seq<char>) -> bool {
    if text::occurs(number, "e"@) {
        !text::occurs(number, "e-"@)
    } else {
        !text::occurs(number, "."@)
    }
}

/// Whether the printed number is an integer.
pub fn is_integer(number: &str) -> (r: bool)
    ensures
        r == integer_text(number@),
{
    if text::contains_text(number, "e") {
        !text::contains_text(number, "e-")
    } else {
        !text::contains_text(number, ".")
    }
}

/// `Value::as_array` on the entry `key` of the value that `serde_json::from_str`
/// reads from `source`: the length of the array there.
#[verifier::external_body]
pub(crate) fn length_at(source: &str, key: &str) -> (r: Option<usize>)
    ensures
        r == json_length(source@, key@),
        json_error(source@) is Some ==> r is None,
{
    let value: serde_json::Value = serde_json::from_str(source).ok()?;
    value[key].as_array().map(|list| list.len())
}

/// `Value::as_str` on the entry `key` of the element `i` of the entry `list` of the value
/// that `serde_json::from_str` reads from `source`. An entry or element that is missing
/// is `null`, and holds no string.
#[verifier::external_body]
pub(crate) fn item_text_at(source: &str, list: &str, i: usize, key: &str) -> (r: Option<String>)
    ensures
        text::optional(r) == json_item_text(source@, list@, i, key@),
        json_error(source@) is Some ==> r is None,
{
    let value: serde_json::Value = serde_json::from_str(source).ok()?;
    value[list][i][key].as_str().map(|s| s.to_string())
}

/// `Value::as_i64` on the entry `key` of the element `i` of the entry `list` of the value
/// that `serde_json::from_str` reads from `source`.
#[verifier::external_body]
pub(crate) fn item_signed_at(source: &str, list: &str, i: usize, key: &str) -> (r: Option<i64>)
    ensures
        r == json_item_signed(source@, list@, i, key@),
        json_error(source@) is Some ==> r is None,
{
    let value: serde_json::Value = serde_json::from_str(source).ok()?;
    value[list][i][key].as_i64()
}

/// `Value::as_str` on the entry `inner` of the entry `outer` of the element `k` of the
/// entry `parts` of the element `i` of the entry `list` of the value that
/// `serde_json::from_str` reads from `source`.
#[verifier::external_body]
pub(crate) fn part_text_at(
    source: &str,
    list: &str,
    i: usize,
    parts: &str,
    k: usize,
    outer: &str,
    inner: &str,
) -> (r: Option<String>)
    ensures
        text::optional(r) == json_part_text(source@, list@, i, parts@, k, outer@, inner@),
        json_error(source@) is Some ==> r is None,
{
    let value: serde_json::Value = serde_json::from_str(source).ok()?;
    value[list][i][parts][k][outer][inner].as_str().map(|s| s.to_string())
}

/// A number without a power of ten is an integer exactly if it has no point.
pub proof fn integers_have_no_point(number: Seq<char>)
    requires
        !number.contains('e'),
    ensures
        integer_text(number) <==> !number.contains('.'),
{
    one_character(number, "e"@, 'e');
    one_character(number, "."@, '.');
}

proof fn one_character(s: Seq<char>, part: Seq<char>, c: char)
    requires
        c == 'e' && part == "e"@ || c == '.' && part == "."@,
    ensures
        text::occurs(s, part) <==> s.contains(c),
{
    reveal_strlit("e");
    reveal_strlit(".");
    assert(part =~= seq![c]);
    if s.contains(c) {
        let i = choose|i: int| 0 <= i < s.len() && s[i] == c;
        assert(s.subrange(i, i + 1) =~= part);
        assert(text::occurs_at(s, part, i));
    }
    if text::occurs(s, part) {
        let i = choose|i: int| text::occurs_at(s, part, i);
        assert(s.subrange(i, i + 1)[0] == part[0]);
        assert(s[i] == c);
    }
}

} // verus!
