//! Compact JSON text, as `serde_json::to_string` writes it: string literals
//! come from `serde_json`; objects and arrays are framed here.
use vstd::prelude::*;

use crate::text::{hex_digit, join, join_strings};

verus! {

/// `serde_json::Error`, carried through unopened.
#[verifier::external_type_specification]
#[verifier::external_body]
pub struct ExJsonError(serde_json::Error);

/// How `serde_json` writes one character inside a string literal: `"` and
/// `\` escaped by a backslash; backspace, form feed, line feed, carriage
/// return and tab as `\b \f \n \r \t`; other characters below U+0020 as
/// `\u00` and two lowercase hex digits; every other character unchanged.
pub open spec fn json_escape_char(c: char) -> Seq<char> {
    if c == '"' {
        seq!['\\', '"']
    } else if c == '\\' {
        seq!['\\', '\\']
    } else if c == '\u{8}' {
        seq!['\\', 'b']
    } else if c == '\u{c}' {
        seq!['\\', 'f']
    } else if c == '\n' {
        seq!['\\', 'n']
    } else if c == '\r' {
        seq!['\\', 'r']
    } else if c == '\t' {
        seq!['\\', 't']
    } else if (c as u32) < 0x20 {
        seq!['\\', 'u', '0', '0', hex_digit((c as u32 / 16) as nat), hex_digit((c as u32 % 16) as nat)]
    } else {
        seq![c]
    }
}

/// The characters of a text as they stand inside a JSON string literal.
pub open spec fn json_escaped(s: Seq<char>) -> Seq<char>
    decreases s.len(),
{
    if s.len() == 0 {
        Seq::empty()
    } else {
        json_escape_char(s[0]) + json_escaped(s.drop_first())
    }
}

/// The JSON string literal that `serde_json` writes for a text: the escaped
/// characters between double quotes.
pub open spec fn json_string_text(s: Seq<char>) -> Seq<char> {
    seq!['"'] + json_escaped(s) + seq!['"']
}

/// Calls `serde_json::to_string` on a `&str`. The contract claims that the
/// call succeeds and that its text is `json_string_text(s)`: the characters
/// of `s` escaped as `serde_json`'s `format_escaped_str` and `ESCAPE` table
/// do, between double quotes. Success: for a string, `to_string` serializes
/// into a `Vec<u8>`, and the only errors on that path are write errors, which
/// appending to a vector never gives.
#[verifier::external_body]
fn serde_json_str(s: &str) -> (res: Result<String, serde_json::Error>)
    ensures
        res is Ok,
        res matches Ok(t) ==> t@ == json_string_text(s@),
{
    serde_json::to_string(s)
}

/// The JSON string literal of `s`.
pub fn json_string(s: &str) -> (res: String)
    ensures
        res@ == json_string_text(s@),
{
    match serde_json_str(s) {
        Ok(t) => t,
        Err(_) => String::new(),
    }
}

/// One member of an object: the quoted key, a colon, the value's text.
pub open spec fn json_member(key: Seq<char>, value: Seq<char>) -> Seq<char> {
    json_string_text(key) + ":"@ + value
}

/// An object of the given members, in order, without whitespace.
pub open spec fn json_object(members: Seq<Seq<char>>) -> Seq<char> {
    "{"@ + join(members, ","@) + "}"@
}

/// The string literals of the given texts.
pub open spec fn json_string_texts(items: Seq<Seq<char>>) -> Seq<Seq<char>> {
    items.map_values(|t: Seq<char>| json_string_text(t))
}

/// An array of strings, without whitespace.
pub open spec fn json_string_array(items: Seq<Seq<char>>) -> Seq<char> {
    "["@ + join(json_string_texts(items), ","@) + "]"@
}

/// The member `"key":value`.
pub fn member(key: &str, value: &str) -> (res: String)
    ensures
        res@ == json_member(key@, value@),
{
    let mut res = json_string(key);
    res.append(":");
    res.append(value);
    res
}

/// The object made of `members`, in order.
pub fn object(members: &Vec<String>) -> (res: String)
    ensures
        res@ == json_object(members.deep_view()),
{
    let inner = join_strings(members, ",");
    let mut res = String::new();
    res.append("{");
    res.append(inner.as_str());
    res.append("}");
    res
}

/// The array of the string literals of `items`, in order.
pub fn string_array(items: &Vec<String>) -> (res: String)
    ensures
        res@ == json_string_array(items.deep_view()),
{
    let mut quoted: Vec<String> = Vec::new();
    let n = items.len();
    for i in 0..n
        invariant
            n == items.len(),
            quoted.deep_view() =~= json_string_texts(items.deep_view().take(i as int)),
    {
        let ghost before = quoted.deep_view();
        let q = json_string(items[i].as_str());
        quoted.push(q);
        assert(quoted.deep_view() =~= before.push(json_string_text(items[i as int]@)));
        assert(items.deep_view().take(i + 1) =~= items.deep_view().take(i as int).push(items[i as int]@));
        assert(json_string_texts(items.deep_view().take(i + 1)) =~= json_string_texts(
            items.deep_view().take(i as int),
        ).push(json_string_text(items[i as int]@)));
    }
    assert(items.deep_view().take(n as int) =~= items.deep_view());
    let inner = join_strings(&quoted, ",");
    let mut res = String::new();
    res.append("[");
    res.append(inner.as_str());
    res.append("]");
    res
}

/// The value of a hexadecimal digit of either case (16 for any other
/// character).
pub open spec fn hex_value(c: char) -> nat {
    if c == '0' { 0 }
    else if c == '1' { 1 }
    else if c == '2' { 2 }
    else if c == '3' { 3 }
    else if c == '4' { 4 }
    else if c == '5' { 5 }
    else if c == '6' { 6 }
    else if c == '7' { 7 }
    else if c == '8' { 8 }
    else if c == '9' { 9 }
    else if c == 'a' || c == 'A' { 10 }
    else if c == 'b' || c == 'B' { 11 }
    else if c == 'c' || c == 'C' { 12 }
    else if c == 'd' || c == 'D' { 13 }
    else if c == 'e' || c == 'E' { 14 }
    else if c == 'f' || c == 'F' { 15 }
    else { 16 }
}

/// The character that a two-character escape `\e` stands for in JSON.
pub open spec fn json_simple_unescape(e: char) -> Option<char> {
    if e == '"' { Some('"') }
    else if e == '\\' { Some('\\') }
    else if e == '/' { Some('/') }
    else if e == 'b' { Some('\u{8}') }
    else if e == 'f' { Some('\u{c}') }
    else if e == 'n' { Some('\n') }
    else if e == 'r' { Some('\r') }
    else if e == 't' { Some('\t') }
    else { None }
}

/// The text that the inside of a JSON string literal denotes (RFC 8259,
/// section 7), or `None` where it is not well formed: an unescaped `"` or
/// control character, a broken escape, or a `\u` escape of a surrogate (pairs
/// of surrogate escapes are not read).
pub open spec fn json_unescape(t: Seq<char>) -> Option<Seq<char>>
    decreases t.len(),
{
    if t.len() == 0 {
        Some(Seq::empty())
    } else if t[0] == '"' || (t[0] as u32) < 0x20 {
        None
    } else if t[0] != '\\' {
        match json_unescape(t.drop_first()) {
            Some(r) => Some(seq![t[0]] + r),
            None => None,
        }
    } else if t.len() < 2 {
        None
    } else {
        match json_simple_unescape(t[1]) {
            Some(c) => match json_unescape(t.skip(2)) {
                Some(r) => Some(seq![c] + r),
                None => None,
            },
            None => if t[1] == 'u' && t.len() >= 6 && hex_value(t[2]) < 16 && hex_value(t[3]) < 16
                && hex_value(t[4]) < 16 && hex_value(t[5]) < 16 {
                let code = hex_value(t[2]) * 4096 + hex_value(t[3]) * 256 + hex_value(t[4]) * 16
                    + hex_value(t[5]);
                if code < 0xD800 || 0xE000 <= code {
                    match json_unescape(t.skip(6)) {
                        Some(r) => Some(seq![code as char] + r),
                        None => None,
                    }
                } else {
                    None
                }
            } else {
                None
            },
        }
    }
}

/// The text that a JSON string literal denotes, or `None` where it is not one.
pub open spec fn json_string_value(t: Seq<char>) -> Option<Seq<char>> {
    if t.len() >= 2 && t[0] == '"' && t.last() == '"' {
        json_unescape(t.subrange(1, t.len() - 1))
    } else {
        None
    }
}

proof fn lemma_hex_round_trip(d: nat)
    requires
        d < 16,
    ensures
        hex_value(hex_digit(d)) == d,
{
}

proof fn lemma_unescape_escaped(s: Seq<char>)
    ensures
        json_unescape(json_escaped(s)) == Some(s),
    decreases s.len(),
{
    if s.len() > 0 {
        let c = s[0];
        let rest = s.drop_first();
        let e = json_escape_char(c);
        let tail = json_escaped(rest);
        let t = e + tail;
        assert(json_escaped(s) == t);
        lemma_unescape_escaped(rest);
        assert(s =~= seq![c] + rest);
        if e.len() == 1 {
            assert(t.drop_first() =~= tail);
        } else if e.len() == 2 {
            assert(t.skip(2) =~= tail);
        } else {
            let v = c as u32;
            lemma_hex_round_trip((v / 16) as nat);
            lemma_hex_round_trip((v % 16) as nat);
            assert(t.skip(6) =~= tail);
            assert(v == (v / 16) * 16 + v % 16);
            let code = hex_value(t[2]) * 4096 + hex_value(t[3]) * 256 + hex_value(t[4]) * 16
                + hex_value(t[5]);
            assert(code == v);
            vstd::utf8::char_u32_cast(c, v);
            assert((v as char) == c);
            assert((code as char) == c);
        }
    }
}

/// What `serde_json` writes for a text reads back as that text: every string
/// literal in a request body denotes exactly the string it was written for.
pub proof fn lemma_json_string_round_trip(s: Seq<char>)
    ensures
        json_string_value(json_string_text(s)) == Some(s),
{
    let t = json_string_text(s);
    lemma_unescape_escaped(s);
    assert(t.subrange(1, t.len() - 1) =~= json_escaped(s));
}

/// An array of no strings is `[]`; one more string adds its literal before
/// the closing bracket, after a comma where the array was not empty.
pub proof fn lemma_string_array_push(items: Seq<Seq<char>>, x: Seq<char>)
    ensures
        json_string_array(Seq::empty()) == "["@ + "]"@,
        json_string_array(items.push(x)) == "["@ + json_string_array(items).subrange(1, json_string_array(items).len() - 1)
            + (if items.len() == 0 { Seq::<char>::empty() } else { ","@ }) + json_string_text(x) + "]"@,
{
    reveal_strlit("[");
    reveal_strlit("]");
    assert(json_string_texts(Seq::<Seq<char>>::empty()) =~= Seq::<Seq<char>>::empty());
    assert(json_string_array(Seq::empty()) =~= "["@ + "]"@);
    let qs = json_string_texts(items);
    assert(json_string_texts(items.push(x)) =~= qs.push(json_string_text(x)));
    crate::text::lemma_join_push(qs, ","@, json_string_text(x));
    let j = join(qs, ","@);
    assert(json_string_array(items) =~= "["@ + j + "]"@);
    assert(json_string_array(items).subrange(1, json_string_array(items).len() - 1) =~= j);
    if items.len() == 0 {
        assert(j =~= Seq::<char>::empty());
    }
}

} // verus!
