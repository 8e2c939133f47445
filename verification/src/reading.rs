//! How JSON text is read.
//!
//! The definitions go by the grammar of JSON: they know nothing of how a text was made.

use crate::json::{all_escaped, escaped, hex_digit, members_text, object_text, quoted};
use crate::text::{decimal, signed_decimal};
use vstd::prelude::*;

verus! {

/// What is left of a text behind the quote that ends a string, where the text begins inside that
/// string.
pub open spec fn after_string(s: Seq<char>) -> Seq<char>
    decreases s.len(),
{
    if s.len() == 0 {
        s
    } else if s[0] == '"' {
        s.drop_first()
    } else if s[0] == '\\' && s.len() > 1 {
        after_string(s.skip(2))
    } else {
        after_string(s.drop_first())
    }
}

/// The number that a hexadecimal digit stands for.
pub open spec fn hex_value(c: char) -> int {
    if '0' <= c <= '9' {
        c as int - '0' as int
    } else if 'a' <= c <= 'f' {
        c as int - 'a' as int + 10
    } else {
        c as int - 'A' as int + 10
    }
}

/// The character that four hexadecimal digits stand for.
pub open spec fn code_char(digits: Seq<char>) -> char {
    (4096 * hex_value(digits[0]) + 256 * hex_value(digits[1]) + 16 * hex_value(digits[2])
        + hex_value(digits[3])) as char
}

/// The character that stands behind a backslash for another one.
pub open spec fn escape_char(c: char) -> char {
    if c == 'b' {
        8u32 as char
    } else if c == 'f' {
        12u32 as char
    } else if c == 'n' {
        '\n'
    } else if c == 'r' {
        '\r'
    } else if c == 't' {
        '\t'
    } else {
        c
    }
}

/// The characters of a string up to the quote that ends it, where the text begins inside that
/// string.
pub open spec fn string_chars(s: Seq<char>) -> Seq<char>
    decreases s.len(),
{
    if s.len() == 0 || s[0] == '"' {
        seq![]
    } else if s[0] != '\\' || s.len() == 1 {
        seq![s[0]] + string_chars(s.drop_first())
    } else if s[1] == 'u' && s.len() >= 6 {
        seq![code_char(s.subrange(2, 6))] + string_chars(s.skip(6))
    } else {
        seq![escape_char(s[1])] + string_chars(s.skip(2))
    }
}

/// The string that a text is, if it is one.
pub open spec fn read_string(text: Seq<char>) -> Option<Seq<char>> {
    if text.len() > 0 && text[0] == '"' && after_string(text.drop_first()).len() == 0 {
        Some(string_chars(text.drop_first()))
    } else {
        None
    }
}

/// What is left of a text behind a value: the value ends where a comma or a bracket stands that
/// is not its own. The text begins so many brackets deep in the value, and inside a string or
/// not.
pub open spec fn after_value(s: Seq<char>, depth: nat, in_string: bool) -> Seq<char>
    decreases s.len(),
{
    if s.len() == 0 {
        s
    } else if in_string {
        if s[0] == '\\' && s.len() > 1 {
            after_value(s.skip(2), depth, true)
        } else {
            after_value(s.drop_first(), depth, s[0] != '"')
        }
    } else if s[0] == '"' {
        after_value(s.drop_first(), depth, true)
    } else if s[0] == '{' || s[0] == '[' {
        after_value(s.drop_first(), depth + 1, false)
    } else if s[0] == '}' || s[0] == ']' {
        if depth == 0 {
            s
        } else {
            after_value(s.drop_first(), (depth - 1) as nat, false)
        }
    } else if s[0] == ',' && depth == 0 {
        s
    } else {
        after_value(s.drop_first(), depth, false)
    }
}

/// Whether a text is the rest of one value, all of it: every string and every bracket is closed,
/// and no comma or bracket stands there that is not the value's own.
pub open spec fn closes(s: Seq<char>, depth: nat, in_string: bool) -> bool
    decreases s.len(),
{
    if s.len() == 0 {
        depth == 0 && !in_string
    } else if in_string {
        if s[0] == '\\' {
            s.len() > 1 && closes(s.skip(2), depth, true)
        } else {
            closes(s.drop_first(), depth, s[0] != '"')
        }
    } else if s[0] == '"' {
        closes(s.drop_first(), depth, true)
    } else if s[0] == '{' || s[0] == '[' {
        closes(s.drop_first(), depth + 1, false)
    } else if s[0] == '}' || s[0] == ']' {
        depth > 0 && closes(s.drop_first(), (depth - 1) as nat, false)
    } else if s[0] == ',' {
        depth > 0 && closes(s.drop_first(), depth, false)
    } else {
        closes(s.drop_first(), depth, false)
    }
}

/// Whether a text is one value, as far as strings and brackets show it.
pub open spec fn is_value_text(text: Seq<char>) -> bool {
    text.len() > 0 && closes(text, 0, false)
}

/// The members of an object, where the text begins behind its bracket or behind a comma.
pub open spec fn read_members(s: Seq<char>) -> Option<Seq<(Seq<char>, Seq<char>)>>
    decreases s.len(),
{
    proof {
        after_string_shrinks(s.drop_first());
        let v = after_string(s.drop_first()).drop_first();
        after_value_shrinks(v, 0, false);
    }
    if s.len() == 0 || s[0] != '"' {
        None
    } else {
        let key = string_chars(s.drop_first());
        let behind_key = after_string(s.drop_first());
        if behind_key.len() == 0 || behind_key[0] != ':' {
            None
        } else {
            let value_on = behind_key.drop_first();
            let rest = after_value(value_on, 0, false);
            let value = value_on.take(value_on.len() - rest.len());
            if rest == seq!['}'] {
                Some(seq![(key, value)])
            } else if rest.len() > 0 && rest[0] == ',' {
                match read_members(rest.drop_first()) {
                    Some(others) => Some(seq![(key, value)] + others),
                    None => None,
                }
            } else {
                None
            }
        }
    }
}

/// The members of the object that a text is, if it is one: each key as the string that it is,
/// each value as its text.
pub open spec fn read_object(text: Seq<char>) -> Option<Seq<(Seq<char>, Seq<char>)>> {
    if text == seq!['{', '}'] {
        Some(seq![])
    } else if text.len() > 0 && text[0] == '{' {
        read_members(text.drop_first())
    } else {
        None
    }
}

/// The value that stands under a key.
pub open spec fn find(members: Seq<(Seq<char>, Seq<char>)>, key: Seq<char>) -> Option<Seq<char>>
    decreases members.len(),
{
    if members.len() == 0 {
        None
    } else if members[0].0 == key {
        Some(members[0].1)
    } else {
        find(members.drop_first(), key)
    }
}

/// Whether a text is an object with these keys, in this order, and no others.
pub open spec fn has_keys(text: Seq<char>, keys: Seq<Seq<char>>) -> bool {
    &&& read_object(text) matches Some(members)
    &&& members.len() == keys.len()
    &&& forall|i: int| 0 <= i < keys.len() ==> (#[trigger] members[i]).0 == keys[i]
}

/// A key that is there or not.
pub open spec fn key_if(present: bool, key: Seq<char>) -> Seq<Seq<char>> {
    if present {
        seq![key]
    } else {
        seq![]
    }
}

/// The text of the value that stands under a key in the object that a text is.
pub open spec fn member(text: Seq<char>, key: Seq<char>) -> Option<Seq<char>> {
    match read_object(text) {
        Some(members) => find(members, key),
        None => None,
    }
}

/// The string that stands under a key in the object that a text is.
pub open spec fn string_member(text: Seq<char>, key: Seq<char>) -> Option<Seq<char>> {
    match member(text, key) {
        Some(value) => read_string(value),
        None => None,
    }
}

/// The number that a row of digits stands for.
pub open spec fn read_digits(s: Seq<char>) -> int
    decreases s.len(),
{
    if s.len() == 0 {
        0
    } else {
        10 * read_digits(s.drop_last()) + (s.last() as int - '0' as int)
    }
}

/// Whether a text is this number in decimal: a minus sign where the number is negative, and digits
/// that do not begin with a zero unless that is all.
pub open spec fn is_number_text(s: Seq<char>, n: int) -> bool {
    let digits = if n < 0 {
        s.drop_first()
    } else {
        s
    };
    &&& n < 0 ==> s.len() > 0 && s[0] == '-'
    &&& digits.len() > 0
    &&& forall|i: int| 0 <= i < digits.len() ==> '0' <= #[trigger] digits[i] <= '9'
    &&& digits.len() > 1 ==> digits[0] != '0'
    &&& read_digits(digits) == (if n < 0 {
        -n
    } else {
        n
    })
}

/// The rest behind a string is no longer than the text.
pub proof fn after_string_shrinks(s: Seq<char>)
    ensures
        after_string(s).len() <= s.len(),
    decreases s.len(),
{
    if s.len() == 0 || s[0] == '"' {
    } else if s[0] == '\\' && s.len() > 1 {
        after_string_shrinks(s.skip(2));
    } else {
        after_string_shrinks(s.drop_first());
    }
}

/// The rest behind a value is no longer than the text.
pub proof fn after_value_shrinks(s: Seq<char>, depth: nat, in_string: bool)
    ensures
        after_value(s, depth, in_string).len() <= s.len(),
    decreases s.len(),
{
    if s.len() > 0 {
        if in_string {
            if s[0] == '\\' && s.len() > 1 {
                after_value_shrinks(s.skip(2), depth, true);
            } else {
                after_value_shrinks(s.drop_first(), depth, s[0] != '"');
            }
        } else if s[0] == '"' {
            after_value_shrinks(s.drop_first(), depth, true);
        } else if s[0] == '{' || s[0] == '[' {
            after_value_shrinks(s.drop_first(), depth + 1, false);
        } else if s[0] == '}' || s[0] == ']' {
            if depth > 0 {
                after_value_shrinks(s.drop_first(), (depth - 1) as nat, false);
            }
        } else {
            after_value_shrinks(s.drop_first(), depth, false);
        }
    }
}

/// A hexadecimal digit stands for its number, and is no quote and no backslash.
proof fn hex_digit_reads_back(d: int)
    requires
        0 <= d < 16,
    ensures
        hex_value(hex_digit(d)) == d,
        hex_digit(d) != '"',
        hex_digit(d) != '\\',
{
    reveal_strlit("0123456789abcdef");
    if d < 8 {
        assert(d == 0 || d == 1 || d == 2 || d == 3 || d == 4 || d == 5 || d == 6 || d == 7);
    } else {
        assert(d == 8 || d == 9 || d == 10 || d == 11 || d == 12 || d == 13 || d == 14 || d == 15);
    }
}

/// A character inside a string is read as itself.
proof fn escaped_reads_back(c: char, t: Seq<char>, depth: nat)
    ensures
        string_chars(escaped(c) + t) == seq![c] + string_chars(t),
        after_string(escaped(c) + t) == after_string(t),
        closes(escaped(c) + t, depth, true) == closes(t, depth, true),
{
    let s = escaped(c) + t;
    if escaped(c).len() == 1 {
        assert(s.drop_first() =~= t);
    } else if escaped(c).len() == 2 {
        assert(s.skip(2) =~= t);
        assert(escape_char(s[1]) == c);
    } else {
        let h = hex_digit(c as int / 16);
        let l = hex_digit(c as int % 16);
        hex_digit_reads_back(c as int / 16);
        hex_digit_reads_back(c as int % 16);
        assert(hex_value('0') == 0);
        assert(s.skip(6) =~= t);
        assert(s.subrange(2, 6) =~= seq!['0', '0', h, l]);
        assert(code_char(s.subrange(2, 6)) == c);
        let s2 = s.skip(2);
        assert(s2 =~= seq!['0', '0', h, l] + t);
        let s3 = s2.drop_first();
        assert(s3 =~= seq!['0', h, l] + t);
        let s4 = s3.drop_first();
        assert(s4 =~= seq![h, l] + t);
        let s5 = s4.drop_first();
        assert(s5 =~= seq![l] + t);
        assert(s5.drop_first() =~= t);
        assert(after_string(s) == after_string(s2));
        assert(after_string(s2) == after_string(s3));
        assert(after_string(s3) == after_string(s4));
        assert(after_string(s4) == after_string(s5));
        assert(closes(s, depth, true) == closes(s2, depth, true));
        assert(closes(s2, depth, true) == closes(s3, depth, true));
        assert(closes(s3, depth, true) == closes(s4, depth, true));
        assert(closes(s4, depth, true) == closes(s5, depth, true));
    }
}

proof fn all_escaped_reads_back(x: Seq<char>, rest: Seq<char>, depth: nat)
    ensures
        string_chars(all_escaped(x) + seq!['"'] + rest) == x,
        after_string(all_escaped(x) + seq!['"'] + rest) == rest,
        closes(all_escaped(x) + seq!['"'] + rest, depth, true) == closes(rest, depth, false),
    decreases x.len(),
{
    let s = all_escaped(x) + seq!['"'] + rest;
    if x.len() == 0 {
        assert(s =~= seq!['"'] + rest);
        assert(s.drop_first() =~= rest);
        assert(x =~= seq![]);
    } else {
        let t = all_escaped(x.drop_first()) + seq!['"'] + rest;
        all_escaped_reads_back(x.drop_first(), rest, depth);
        assert(s =~= escaped(x[0]) + t);
        escaped_reads_back(x[0], t, depth);
        assert(seq![x[0]] + x.drop_first() =~= x);
    }
}

/// A string that is written is read as that string.
pub proof fn string_reads_back(x: Seq<char>)
    ensures
        read_string(quoted(x)) == Some(x),
        is_value_text(quoted(x)),
{
    all_escaped_reads_back(x, seq![], 0);
    let tail = all_escaped(x) + seq!['"'] + Seq::<char>::empty();
    assert(quoted(x).drop_first() =~= tail);
}

/// Behind a value that is closed the reading goes on as if the value had not been there.
proof fn closed_value_is_passed(v: Seq<char>, rest: Seq<char>, own: nat, depth: nat, in_string: bool)
    requires
        closes(v, own, in_string),
    ensures
        after_value(v + rest, own, in_string) == after_value(rest, 0, false),
        closes(v + rest, own + depth, in_string) == closes(rest, depth, false),
    decreases v.len(),
{
    if v.len() == 0 {
        assert(v + rest =~= rest);
    } else {
        let s = v + rest;
        assert(s.drop_first() =~= v.drop_first() + rest);
        if in_string {
            if v[0] == '\\' {
                assert(s.skip(2) =~= v.skip(2) + rest);
                closed_value_is_passed(v.skip(2), rest, own, depth, true);
            } else {
                closed_value_is_passed(v.drop_first(), rest, own, depth, v[0] != '"');
            }
        } else if v[0] == '"' {
            closed_value_is_passed(v.drop_first(), rest, own, depth, true);
        } else if v[0] == '{' || v[0] == '[' {
            closed_value_is_passed(v.drop_first(), rest, own + 1, depth, false);
        } else if v[0] == '}' || v[0] == ']' {
            closed_value_is_passed(v.drop_first(), rest, (own - 1) as nat, depth, false);
        } else {
            closed_value_is_passed(v.drop_first(), rest, own, depth, false);
        }
    }
}

/// The text of one member.
spec fn member_text(entry: (Seq<char>, Seq<char>)) -> Seq<char> {
    quoted(entry.0) + seq![':'] + entry.1
}

/// The members of an object from the first on.
proof fn members_from_the_first(entries: Seq<(Seq<char>, Seq<char>)>)
    requires
        entries.len() > 1,
    ensures
        members_text(entries) == member_text(entries[0]) + seq![','] + members_text(
            entries.drop_first(),
        ),
    decreases entries.len(),
{
    let last = member_text(entries.last());
    if entries.len() == 2 {
        reveal_with_fuel(members_text, 2);
        assert(entries.drop_last().last() == entries[0]);
        assert(entries.drop_first().last() == entries[1]);
    } else {
        members_from_the_first(entries.drop_last());
        assert(entries.drop_last().drop_first() =~= entries.drop_first().drop_last());
        let middle = members_text(entries.drop_first().drop_last());
        let first = member_text(entries[0]);
        assert(members_text(entries.drop_first()) == middle + seq![','] + last);
        assert((first + seq![','] + middle) + seq![','] + last =~= first + seq![','] + (middle + seq![
            ',',
        ] + last));
    }
}

proof fn members_read_back(entries: Seq<(Seq<char>, Seq<char>)>)
    requires
        entries.len() > 0,
        forall|i: int| 0 <= i < entries.len() ==> is_value_text(#[trigger] entries[i].1),
    ensures
        read_members(members_text(entries) + seq!['}']) == Some(entries),
        closes(members_text(entries) + seq!['}'], 1, false),
    decreases entries.len(),
{
    let s = members_text(entries) + seq!['}'];
    let key = entries[0].0;
    let value = entries[0].1;
    let others = if entries.len() == 1 {
        seq!['}']
    } else {
        seq![','] + members_text(entries.drop_first()) + seq!['}']
    };
    let value_on = value + others;
    let behind_key = seq![':'] + value_on;
    if entries.len() > 1 {
        members_from_the_first(entries);
        members_read_back(entries.drop_first());
        assert(others.drop_first() =~= members_text(entries.drop_first()) + seq!['}']);
        assert(entries =~= seq![entries[0]] + entries.drop_first());
    } else {
        assert(entries =~= seq![entries[0]]);
        assert(others.drop_first() =~= seq![]);
    }
    assert(s.drop_first() =~= all_escaped(key) + seq!['"'] + behind_key);
    all_escaped_reads_back(key, behind_key, 1);
    assert(behind_key.drop_first() =~= value_on);
    assert(is_value_text(entries[0].1));
    closed_value_is_passed(value, others, 0, 1, false);
    assert(after_value(others, 0, false) == others);
    assert(value_on.take(value.len() as int) =~= value);
    assert(s[0] == '"');
    assert(entries[0] == (key, value));
    assert(closes(others, 1, false)) by {
        if entries.len() == 1 {
            assert(closes(others.drop_first(), 0, false));
        } else {
            assert(closes(others.drop_first(), 1, false));
        }
    }
    assert(closes(behind_key, 1, false) == closes(value_on, 1, false));
    assert(closes(s, 1, false) == closes(s.drop_first(), 1, true));
}

/// An object that is written is read as an object with the same members, in the same order.
pub proof fn object_reads_back(entries: Seq<(Seq<char>, Seq<char>)>)
    requires
        forall|i: int| 0 <= i < entries.len() ==> is_value_text(#[trigger] entries[i].1),
    ensures
        read_object(object_text(entries)) == Some(entries),
        is_value_text(object_text(entries)),
{
    let text = object_text(entries);
    if entries.len() == 0 {
        assert(text =~= seq!['{', '}']);
        assert(entries =~= seq![]);
        reveal_with_fuel(closes, 3);
        assert(text.drop_first() =~= seq!['}']);
        assert(text.drop_first().drop_first() =~= seq![]);
    } else {
        members_read_back(entries);
        assert(text.drop_first() =~= members_text(entries) + seq!['}']);
        assert(text[1] == '"') by {
            assert(members_text(entries)[0] == '"') by {
                if entries.len() > 1 {
                    members_from_the_first(entries);
                }
            }
        }
    }
}

/// Text without quotes, brackets and commas is one value.
pub proof fn plain_text_is_value(text: Seq<char>)
    requires
        forall|i: int|
            0 <= i < text.len() ==> !(seq!['"', '{', '[', '}', ']', ','].contains(#[trigger] text[i])),
    ensures
        closes(text, 0, false),
    decreases text.len(),
{
    if text.len() > 0 {
        let special = seq!['"', '{', '[', '}', ']', ','];
        assert(special[0] == '"' && special[1] == '{' && special[2] == '[' && special[3] == '}'
            && special[4] == ']' && special[5] == ',');
        assert(!special.contains(text[0]));
        assert forall|i: int| 0 <= i < text.drop_first().len() implies !(special.contains(
            #[trigger] text.drop_first()[i],
        )) by {
            assert(!special.contains(text[i + 1]));
        }
        plain_text_is_value(text.drop_first());
    }
}

/// A number in decimal is read as that number. It is made of digits and does not begin with a
/// zero, unless that is all.
pub proof fn decimal_reads_back(n: nat)
    ensures
        read_digits(decimal(n)) == n,
        decimal(n).len() > 0,
        forall|i: int| 0 <= i < decimal(n).len() ==> '0' <= #[trigger] decimal(n)[i] <= '9',
        n > 0 ==> decimal(n)[0] != '0',
        decimal(n).len() > 1 ==> decimal(n)[0] != '0',
    decreases n,
{
    reveal_strlit("0123456789");
    let d = (n % 10) as int;
    assert(d == 0 || d == 1 || d == 2 || d == 3 || d == 4 || d == 5 || d == 6 || d == 7 || d == 8
        || d == 9);
    let digit = "0123456789"@[d];
    assert(digit as int - '0' as int == d && '0' <= digit <= '9');
    if n < 10 {
        assert(decimal(n) =~= seq![digit]);
        reveal_with_fuel(read_digits, 2);
        assert(seq![digit].drop_last() =~= seq![]);
    } else {
        decimal_reads_back(n / 10);
        assert(decimal(n) =~= decimal(n / 10).push(digit));
        assert(decimal(n).drop_last() =~= decimal(n / 10));
    }
}

/// A number with its sign is read as that number, and is one value.
pub proof fn number_reads_back(n: int)
    ensures
        is_number_text(signed_decimal(n), n),
        is_value_text(signed_decimal(n)),
{
    let magnitude = if n < 0 {
        (-n) as nat
    } else {
        n as nat
    };
    decimal_reads_back(magnitude);
    if n < 0 {
        assert(signed_decimal(n).drop_first() =~= decimal(magnitude));
    }
    let text = signed_decimal(n);
    assert forall|i: int| 0 <= i < text.len() implies !(seq!['"', '{', '[', '}', ']', ','].contains(
        #[trigger] text[i],
    )) by {
        let c = text[i];
        assert(c == '-' || '0' <= c <= '9') by {
            if n < 0 {
                if i > 0 {
                    assert(c == decimal(magnitude)[i - 1]);
                }
            } else {
                assert(c == decimal(magnitude)[i]);
            }
        }
    }
    plain_text_is_value(text);
}

} // verus!
