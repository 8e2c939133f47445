//! Compact JSON text, as `serde_json` writes it.
//!
//! A `serde_json::Value` is opaque to the verifier. What the contracts say of
//! one is its compact text, `value_text`.

use crate::text::{one_line, signed_decimal};
use serde_json::{Map as Object, Value};
use vstd::prelude::*;

verus! {

/// `serde_json::Value`: any JSON value.
#[verifier::external_type_specification]
#[verifier::external_body]
pub struct ExValue(serde_json::Value);

/// `serde_json::Map`: the members of a JSON object.
#[verifier::external_type_specification]
#[verifier::external_body]
#[verifier::reject_recursive_types(K)]
#[verifier::reject_recursive_types(V)]
pub struct ExObject<K, V>(serde_json::Map<K, V>);

/// `serde_json::Error`: why JSON could not be read or written.
#[verifier::external_type_specification]
#[verifier::external_body]
pub struct ExError(serde_json::Error);

/// What a value holds, given by the text that `serde_json::to_string` makes of it.
pub uninterp spec fn value_text(value: Value) -> Seq<char>;

/// The entries of an object in the order in which they are written: each key
/// with the compact text of its value.
pub uninterp spec fn object_entries(object: Object<String, Value>) -> Seq<(Seq<char>, Seq<char>)>;

/// The lower-case hexadecimal digit of a number below sixteen.
pub open spec fn hex_digit(d: int) -> char {
    "0123456789abcdef"@[d]
}

/// One character as it stands inside a JSON string.
pub open spec fn escaped(c: char) -> Seq<char> {
    if c == '"' || c == '\\' {
        seq!['\\', c]
    } else if c as u32 == 8 {
        seq!['\\', 'b']
    } else if c == '\t' {
        seq!['\\', 't']
    } else if c == '\n' {
        seq!['\\', 'n']
    } else if c as u32 == 12 {
        seq!['\\', 'f']
    } else if c == '\r' {
        seq!['\\', 'r']
    } else if (c as u32) < 32 {
        seq!['\\', 'u', '0', '0', hex_digit(c as int / 16), hex_digit(c as int % 16)]
    } else {
        seq![c]
    }
}

/// All characters of a string as they stand inside a JSON string.
pub open spec fn all_escaped(s: Seq<char>) -> Seq<char>
    decreases s.len(),
{
    if s.len() == 0 {
        seq![]
    } else {
        escaped(s[0]) + all_escaped(s.drop_first())
    }
}

/// A string as JSON text.
pub open spec fn quoted(s: Seq<char>) -> Seq<char> {
    seq!['"'] + all_escaped(s) + seq!['"']
}

/// The members of an object: each key, a colon and the value's text, with commas
/// between them.
pub open spec fn members_text(entries: Seq<(Seq<char>, Seq<char>)>) -> Seq<char>
    decreases entries.len(),
{
    if entries.len() == 0 {
        seq![]
    } else {
        let last = quoted(entries.last().0) + seq![':'] + entries.last().1;
        if entries.len() == 1 {
            last
        } else {
            members_text(entries.drop_last()) + seq![','] + last
        }
    }
}

/// The compact text of an object with these entries.
pub open spec fn object_text(entries: Seq<(Seq<char>, Seq<char>)>) -> Seq<char> {
    seq!['{'] + members_text(entries) + seq!['}']
}

/// Whether one string comes before another in the order of their characters.
pub open spec fn comes_before(a: Seq<char>, b: Seq<char>) -> bool
    decreases a.len(),
{
    if b.len() == 0 {
        false
    } else if a.len() == 0 {
        true
    } else if a[0] == b[0] {
        comes_before(a.drop_first(), b.drop_first())
    } else {
        (a[0] as u32) < (b[0] as u32)
    }
}

/// Entries that are ordered by their keys, with one more or one replaced.
pub open spec fn with_entry(
    entries: Seq<(Seq<char>, Seq<char>)>,
    key: Seq<char>,
    text: Seq<char>,
) -> Seq<(Seq<char>, Seq<char>)>
    decreases entries.len(),
{
    if entries.len() == 0 || comes_before(key, entries[0].0) {
        seq![(key, text)] + entries
    } else if key == entries[0].0 {
        entries.update(0, (key, text))
    } else {
        seq![entries[0]] + with_entry(entries.drop_first(), key, text)
    }
}

/// JSON white space.
pub open spec fn is_blank(b: u8) -> bool {
    b == 32 || b == 10 || b == 9 || b == 13
}

/// Bytes without the white space that they begin with.
pub open spec fn skip_blank(bytes: Seq<u8>) -> Seq<u8>
    decreases bytes.len(),
{
    if bytes.len() > 0 && is_blank(bytes[0]) {
        skip_blank(bytes.drop_first())
    } else {
        bytes
    }
}

/// The word `null`, with white space around it.
pub open spec fn is_null_json(bytes: Seq<u8>) -> bool {
    let rest = skip_blank(bytes);
    &&& rest.len() >= 4
    &&& rest.take(4) == seq![110u8, 117u8, 108u8, 108u8]
    &&& skip_blank(rest.skip(4)).len() == 0
}

/// Writes a string as JSON text.
///
/// Calls `serde_json::to_string` on a `str`, which cannot fail: the text is the
/// string between quotes, with quotes, backslashes and control characters
/// escaped.
#[verifier::external_body]
fn str_to_json(s: &str) -> (r: Result<String, serde_json::Error>)
    ensures
        r is Ok,
        r->Ok_0@ == quoted(s@),
{
    serde_json::to_string(s)
}

/// Writes a number as JSON text.
///
/// Calls `serde_json::to_string` on an `i32`, which cannot fail: the text is the
/// number in decimal.
#[verifier::external_body]
fn i32_to_json(n: i32) -> (r: Result<String, serde_json::Error>)
    ensures
        r is Ok,
        r->Ok_0@ == signed_decimal(n as int),
{
    serde_json::to_string(&n)
}

/// Writes the unit value as JSON text.
///
/// Calls `serde_json::to_string` on `()`, which cannot fail: the text is `null`.
#[verifier::external_body]
fn unit_to_json() -> (r: Result<String, serde_json::Error>)
    ensures
        r is Ok,
        r->Ok_0@ == "null"@,
{
    serde_json::to_string(&())
}

/// Reads the unit value from JSON text.
///
/// Calls `serde_json::from_slice` for `()`, which accepts exactly the word `null`
/// with JSON white space around it.
#[verifier::external_body]
fn unit_from_json(bytes: &[u8]) -> (r: Result<(), serde_json::Error>)
    ensures
        r is Ok <==> is_null_json(bytes@),
{
    serde_json::from_slice::<()>(bytes)
}

/// Writes a value as JSON text.
///
/// Calls `serde_json::to_string` on a `Value`, whose keys are all strings, so it
/// cannot fail. The text is named `value_text`; it is compact and its strings are
/// escaped, so no line feed occurs in it.
#[verifier::external_body]
fn value_to_json(value: &Value) -> (r: Result<String, serde_json::Error>)
    ensures
        r is Ok,
        r->Ok_0@ == value_text(*value),
        !r->Ok_0@.contains('\n'),
{
    serde_json::to_string(value)
}

/// Calls `serde_json::Map::new`: the object has no entry.
#[verifier::external_body]
pub(crate) fn new_object() -> (object: Object<String, Value>)
    ensures
        object_entries(object) == Seq::<(Seq<char>, Seq<char>)>::empty(),
{
    Object::new()
}

/// Calls `serde_json::Map::insert`: the value stands under its key afterwards, in
/// place of the one that stood there, or else at the key's place in the order of
/// the keys.
#[verifier::external_body]
pub(crate) fn insert_entry(object: &mut Object<String, Value>, key: String, value: Value)
    ensures
        object_entries(*final(object)) == with_entry(
            object_entries(*old(object)),
            key@,
            value_text(value),
        ),
{
    object.insert(key, value);
}

/// Calls `Value::from` on a `String`: the value is written as that string.
#[verifier::external_body]
pub(crate) fn string_value(s: String) -> (value: Value)
    ensures
        value_text(value) == quoted(s@),
{
    Value::from(s)
}

/// Calls `Value::from` on a `bool`: the value is written `true` or `false`.
#[verifier::external_body]
pub(crate) fn bool_value(b: bool) -> (value: Value)
    ensures
        value_text(value) == (if b { "true"@ } else { "false"@ }),
{
    Value::from(b)
}

/// Calls `Value::from` on a `serde_json::Map`: the value is written as the
/// object's entries, in their order.
#[verifier::external_body]
pub(crate) fn object_value(object: Object<String, Value>) -> (value: Value)
    ensures
        value_text(value) == object_text(object_entries(object)),
{
    Value::from(object)
}

/// A string as JSON text.
pub(crate) fn quote(s: &str) -> (r: String)
    ensures
        r@ == quoted(s@),
{
    str_to_json(s).unwrap()
}

/// A number as JSON text.
pub(crate) fn write_i32(n: i32) -> (r: String)
    ensures
        r@ == signed_decimal(n as int),
{
    i32_to_json(n).unwrap()
}

/// A value as JSON text.
pub(crate) fn write_value(value: &Value) -> (r: String)
    ensures
        r@ == value_text(*value),
        one_line(r@),
{
    value_to_json(value).unwrap()
}

/// The word `null`.
pub(crate) fn write_null() -> (r: String)
    ensures
        r@ == "null"@,
{
    unit_to_json().unwrap()
}

/// Whether the bytes are the word `null`.
pub(crate) fn is_null(bytes: &[u8]) -> (r: bool)
    ensures
        r == is_null_json(bytes@),
{
    unit_from_json(bytes).is_ok()
}

/// What a list of keys and texts holds.
pub open spec fn entries_view(entries: Seq<(String, String)>) -> Seq<(Seq<char>, Seq<char>)> {
    entries.map_values(|e: (String, String)| (e.0@, e.1@))
}

/// An object with these members, in this order.
pub(crate) fn write_object(entries: &Vec<(String, String)>) -> (r: String)
    ensures
        r@ == object_text(entries_view(entries@)),
{
    proof {
        reveal_strlit("{");
        reveal_strlit("}");
        reveal_strlit(",");
        reveal_strlit(":");
    }
    let mut text: String = "{".to_string();
    let mut i: usize = 0;
    while i < entries.len()
        invariant
            i <= entries.len(),
            text@ == seq!['{'] + members_text(entries_view(entries@.take(i as int))),
            ","@ == seq![','],
            ":"@ == seq![':'],
        decreases entries.len() - i,
    {
        let ghost before = entries_view(entries@.take(i as int));
        let ghost after = entries_view(entries@.take(i + 1));
        assert(after.drop_last() =~= before);
        if i > 0 {
            text.append(",");
        }
        text.append(quote(entries[i].0.as_str()).as_str());
        text.append(":");
        text.append(entries[i].1.as_str());
        assert(text@ =~= seq!['{'] + members_text(after));
        i = i + 1;
    }
    assert(entries@.take(i as int) =~= entries@);
    text.append("}");
    text
}

/// A JSON string is one line, whatever it says.
pub proof fn quoted_is_one_line(s: Seq<char>)
    ensures
        one_line(quoted(s)),
{
    all_escaped_is_one_line(s);
    assert(one_line(seq!['"'] + all_escaped(s)));
}

proof fn escaped_is_one_line(c: char)
    ensures
        one_line(escaped(c)),
{
    reveal_strlit("0123456789abcdef");
    assert forall|d: int| 0 <= d < 16 implies #[trigger] hex_digit(d) != '\n' by {
        if d < 8 {
            assert(d == 0 || d == 1 || d == 2 || d == 3 || d == 4 || d == 5 || d == 6 || d == 7);
        } else {
            assert(d == 8 || d == 9 || d == 10 || d == 11 || d == 12 || d == 13 || d == 14 || d
                == 15);
        }
    }
    if (c as u32) < 32 {
        assert(hex_digit(c as int / 16) != '\n');
        assert(hex_digit(c as int % 16) != '\n');
    }
}

proof fn all_escaped_is_one_line(s: Seq<char>)
    ensures
        one_line(all_escaped(s)),
    decreases s.len(),
{
    if s.len() > 0 {
        all_escaped_is_one_line(s.drop_first());
        escaped_is_one_line(s[0]);
    }
}

/// An object whose values are one line each is one line.
pub proof fn object_is_one_line(entries: Seq<(Seq<char>, Seq<char>)>)
    requires
        forall|i: int| 0 <= i < entries.len() ==> one_line(#[trigger] entries[i].1),
    ensures
        one_line(object_text(entries)),
{
    members_are_one_line(entries);
    assert(one_line(seq!['{'] + members_text(entries)));
}

proof fn members_are_one_line(entries: Seq<(Seq<char>, Seq<char>)>)
    requires
        forall|i: int| 0 <= i < entries.len() ==> one_line(#[trigger] entries[i].1),
    ensures
        one_line(members_text(entries)),
    decreases entries.len(),
{
    if entries.len() > 0 {
        members_are_one_line(entries.drop_last());
        quoted_is_one_line(entries.last().0);
        assert(one_line(entries.last().1));
        let last = quoted(entries.last().0) + seq![':'] + entries.last().1;
        assert(one_line(quoted(entries.last().0) + seq![':']));
        assert(one_line(last));
        if entries.len() > 1 {
            assert(one_line(members_text(entries.drop_last()) + seq![',']));
        }
    }
}

} // verus!
