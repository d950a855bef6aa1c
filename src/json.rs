//! The text form of a tag list, as stored beside each item.
use vstd::prelude::*;

verus! {

#[verifier::external_type_specification]
#[verifier::external_body]
pub struct ExJsonError(serde_json::Error);

/// A lower-case hexadecimal digit.
pub open spec fn hex_digit(n: u32) -> char {
    seq!['0', '1', '2', '3', '4', '5', '6', '7', '8', '9', 'a', 'b', 'c', 'd', 'e', 'f'][n as int]
}

/// How `serde_json` writes one character inside a string: quote and
/// backslash escaped, the control characters below `0x20` as `\b`, `\t`,
/// `\n`, `\f`, `\r` or `\u00XX`, every other character as it is.
pub open spec fn json_char(c: char) -> Seq<char> {
    let u = c as u32;
    if c == '"' {
        seq!['\\', '"']
    } else if c == '\\' {
        seq!['\\', '\\']
    } else if u == 0x08 {
        seq!['\\', 'b']
    } else if u == 0x09 {
        seq!['\\', 't']
    } else if u == 0x0A {
        seq!['\\', 'n']
    } else if u == 0x0C {
        seq!['\\', 'f']
    } else if u == 0x0D {
        seq!['\\', 'r']
    } else if u < 0x20 {
        seq!['\\', 'u', '0', '0', hex_digit(u / 16), hex_digit(u % 16)]
    } else {
        seq![c]
    }
}

/// The escaped characters of a string.
pub open spec fn json_chars(s: Seq<char>) -> Seq<char>
    decreases s.len(),
{
    if s.len() == 0 {
        Seq::empty()
    } else {
        json_chars(s.drop_last()) + json_char(s.last())
    }
}

/// A string as a JSON string literal.
pub open spec fn json_string(s: Seq<char>) -> Seq<char> {
    seq!['"'] + json_chars(s) + seq!['"']
}

/// The string literals of a list, separated by commas.
pub open spec fn json_items(t: Seq<Seq<char>>) -> Seq<char>
    decreases t.len(),
{
    if t.len() == 0 {
        Seq::empty()
    } else if t.len() == 1 {
        json_string(t[0])
    } else {
        json_items(t.drop_last()) + seq![','] + json_string(t.last())
    }
}

/// The JSON array text that `serde_json` writes for a list of strings, with no
/// whitespace.
pub open spec fn json_of_strings(t: Seq<Seq<char>>) -> Seq<char> {
    seq!['['] + json_items(t) + seq![']']
}

/// Relies on `serde_json::to_string` for `Vec<String>`: the compact JSON array
/// text of the list. Writing strings into memory cannot fail, so it is `Ok`.
#[verifier::external_body]
pub(crate) fn encode_tags(tags: &Vec<String>) -> (r: Result<String, serde_json::Error>)
    ensures
        r is Ok,
        r matches Ok(s) ==> s@ == json_of_strings(tags.deep_view()),
{
    serde_json::to_string(tags)
}

/// Relies on `serde_json::from_str` for `Vec<String>`: text that `serde_json`
/// wrote for a list of strings reads back as that list.
#[verifier::external_body]
pub(crate) fn decode_tags(s: &str) -> (r: Result<Vec<String>, serde_json::Error>)
    ensures
        forall|t: Seq<Seq<char>>|
            s@ == #[trigger] json_of_strings(t) ==> (r is Ok && r->Ok_0.deep_view() == t),
{
    serde_json::from_str(s)
}

} // verus!
