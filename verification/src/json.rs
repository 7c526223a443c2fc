//! JSON text of plain values, as serde_json writes it.
use vstd::prelude::*;
use crate::settings::texts;

verus! {

#[verifier::external_type_specification]
#[verifier::external_body]
pub struct ExSerdeJsonError(serde_json::Error);

/// The lowercase hexadecimal digit for `d < 16`.
pub open spec fn hex_digit(d: u32) -> char {
    if d < 10 {
        (('0' as u32) + d) as char
    } else {
        (('a' as u32) + d - 10) as char
    }
}

/// How serde_json writes one character inside a string literal: quote and
/// backslash escaped by a backslash; backspace, tab, line feed, form feed and
/// carriage return as `\b \t \n \f \r`; other control characters below 0x20
/// as `\u00XX` in lowercase hexadecimal; anything else as itself.
pub open spec fn json_escaped_char(c: char) -> Seq<char> {
    let v = c as u32;
    if c == '"' {
        seq!['\\', '"']
    } else if c == '\\' {
        seq!['\\', '\\']
    } else if v == 0x08 {
        seq!['\\', 'b']
    } else if v == 0x09 {
        seq!['\\', 't']
    } else if v == 0x0A {
        seq!['\\', 'n']
    } else if v == 0x0C {
        seq!['\\', 'f']
    } else if v == 0x0D {
        seq!['\\', 'r']
    } else if v < 0x20 {
        seq!['\\', 'u', '0', '0', hex_digit(v / 16), hex_digit(v % 16)]
    } else {
        seq![c]
    }
}

/// The characters of a string with each one escaped as serde_json does.
pub open spec fn json_escaped(s: Seq<char>) -> Seq<char>
    decreases s.len(),
{
    if s.len() == 0 {
        Seq::empty()
    } else {
        json_escaped(s.drop_last()) + json_escaped_char(s.last())
    }
}

/// A string literal as serde_json writes it.
pub open spec fn json_string(s: Seq<char>) -> Seq<char> {
    seq!['"'] + json_escaped(s) + seq!['"']
}

/// The string literals of a list, separated by commas.
pub open spec fn json_items(v: Seq<Seq<char>>) -> Seq<char>
    decreases v.len(),
{
    if v.len() == 0 {
        Seq::empty()
    } else if v.len() == 1 {
        json_string(v[0])
    } else {
        json_items(v.drop_last()) + seq![','] + json_string(v.last())
    }
}

/// The compact JSON text that `serde_json::to_string` writes for a list of
/// strings: an array of string literals, without spaces.
pub open spec fn json_of_strings(v: Seq<Seq<char>>) -> Seq<char> {
    seq!['['] + json_items(v) + seq![']']
}

/// `serde_json::to_string` on a list of strings. Serialising fails only when a
/// value's own `Serialize` fails or a map has non-string keys, neither of which
/// can happen for strings, so the result is always the array's text.
#[verifier::external_body]
fn serde_json_strings(v: &Vec<String>) -> (r: Result<String, serde_json::Error>)
    ensures
        r is Ok,
        r matches Ok(s) ==> s@ == json_of_strings(texts(v@)),
{
    serde_json::to_string(v)
}

/// The JSON text of a list of strings.
pub fn strings_to_json(v: &Vec<String>) -> (r: String)
    ensures
        r@ == json_of_strings(texts(v@)),
{
    match serde_json_strings(v) {
        Ok(s) => s,
        Err(_) => String::new(),
    }
}

} // verus!
