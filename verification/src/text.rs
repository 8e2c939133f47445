//! Numbers and bytes as text.

use vstd::prelude::*;
use vstd::utf8::{char_u32_cast, decode_utf8, encode_scalar, encode_utf8, valid_utf8};

verus! {

/// The decimal digits of a natural number.
pub open spec fn decimal(n: nat) -> Seq<char>
    decreases n,
{
    if n < 10 {
        seq!["0123456789"@[n as int]]
    } else {
        decimal(n / 10).push("0123456789"@[(n % 10) as int])
    }
}

/// An integer in decimal, with a minus sign where it is negative.
pub open spec fn signed_decimal(n: int) -> Seq<char> {
    if n < 0 {
        seq!['-'] + decimal((-n) as nat)
    } else {
        decimal(n as nat)
    }
}

/// Text without a line feed.
pub open spec fn one_line(s: Seq<char>) -> bool {
    !s.contains('\n')
}

/// The bytes of a text with a line feed behind it.
pub open spec fn line_bytes(text: Seq<char>) -> Seq<u8> {
    encode_utf8(text + "\n"@)
}

/// Bytes that are one line: the line feed stands at the end and nowhere else.
pub open spec fn is_line(bytes: Seq<u8>) -> bool {
    &&& bytes.len() > 0
    &&& forall|i: int|
        0 <= i < bytes.len() ==> (#[trigger] bytes[i] == 10 <==> i == bytes.len() - 1)
}

/// Reads bytes as UTF-8.
///
/// Calls `String::from_utf8`, which gives the text that valid UTF-8 encodes and
/// refuses anything else.
#[verifier::external_body]
pub(crate) fn string_from_utf8(bytes: Vec<u8>) -> (r: Option<String>)
    ensures
        r is Some <==> valid_utf8(bytes@),
        r matches Some(text) ==> text@ == decode_utf8(bytes@),
{
    String::from_utf8(bytes).ok()
}

/// The bytes of a text.
pub(crate) fn utf8_bytes(text: &String) -> (r: Vec<u8>)
    ensures
        r@ == encode_utf8(text@),
{
    text.as_str().as_bytes_vec()
}

/// The bytes of a text with a line feed behind it.
pub(crate) fn utf8_line(text: String) -> (r: Vec<u8>)
    ensures
        r@ == line_bytes(text@),
{
    utf8_bytes(&text.concat("\n"))
}

/// Encoding a text that is one line, and the line feed behind it, gives one line.
pub proof fn line_bytes_are_one_line(text: Seq<char>)
    requires
        one_line(text),
    ensures
        is_line(line_bytes(text)),
    decreases text.len(),
{
    reveal_strlit("\n");
    let line = text + "\n"@;
    if text.len() == 0 {
        assert(line =~= seq!['\n']);
        assert(line.drop_first() =~= Seq::<char>::empty());
        reveal_with_fuel(encode_utf8, 2);
        assert(10u32 & 0x7F == 10) by (bit_vector);
        assert(line_bytes(text) =~= seq![10u8]);
    } else {
        let rest = text.drop_first();
        assert(line.drop_first() =~= rest + "\n"@);
        assert(text.contains(text[0]));
        assert forall|i: int| 0 <= i < rest.len() implies rest[i] != '\n' by {
            assert(text.contains(text[i + 1]));
        }
        line_bytes_are_one_line(rest);
        char_u32_cast(text[0], text[0] as u32);
        scalar_without_line_feed(text[0] as u32);
        let head = encode_scalar(text[0] as u32);
        let tail = line_bytes(rest);
        assert(line_bytes(text) =~= head + tail);
        assert forall|i: int| 0 <= i < (head + tail).len() implies (#[trigger] (head + tail)[i] == 10
            <==> i == (head + tail).len() - 1) by {
            if i < head.len() {
                assert(head[i] != 10);
            } else {
                assert((head + tail)[i] == tail[i - head.len()]);
            }
        }
    }
}

/// No byte of the encoding of another character is a line feed.
proof fn scalar_without_line_feed(c: u32)
    requires
        c != 10,
    ensures
        forall|i: int| 0 <= i < encode_scalar(c).len() ==> #[trigger] encode_scalar(c)[i] != 10,
{
    assert(c <= 0x7F ==> (c & 0x7F) as u8 == c) by (bit_vector);
    assert(0xC0 | ((c >> 6) & 0x1F) as u8 >= 0x80) by (bit_vector);
    assert(0xE0 | ((c >> 12) & 0x0F) as u8 >= 0x80) by (bit_vector);
    assert(0xF0 | ((c >> 18) & 0x7) as u8 >= 0x80) by (bit_vector);
    assert(0x80 | (c & 0x3F) as u8 >= 0x80) by (bit_vector);
    assert(0x80 | ((c >> 6) & 0x3F) as u8 >= 0x80) by (bit_vector);
    assert(0x80 | ((c >> 12) & 0x3F) as u8 >= 0x80) by (bit_vector);
}

/// A text with another one before it.
pub(crate) fn prefixed(prefix: &str, text: String) -> (r: String)
    ensures
        r@ == prefix@ + text@,
{
    prefix.to_string().concat(text.as_str())
}

/// One decimal digit.
fn digit_text(d: u64) -> (r: &'static str)
    requires
        d < 10,
    ensures
        r@ == seq!["0123456789"@[d as int]],
{
    proof {
        reveal_strlit("0123456789");
        reveal_strlit("0");
        reveal_strlit("1");
        reveal_strlit("2");
        reveal_strlit("3");
        reveal_strlit("4");
        reveal_strlit("5");
        reveal_strlit("6");
        reveal_strlit("7");
        reveal_strlit("8");
        reveal_strlit("9");
    }
    match d {
        0 => "0",
        1 => "1",
        2 => "2",
        3 => "3",
        4 => "4",
        5 => "5",
        6 => "6",
        7 => "7",
        8 => "8",
        _ => "9",
    }
}

/// A natural number in decimal.
pub(crate) fn write_u64(n: u64) -> (r: String)
    ensures
        r@ == decimal(n as nat),
    decreases n,
{
    if n < 10 {
        digit_text(n).to_string()
    } else {
        let mut text: String = write_u64(n / 10);
        text.append(digit_text(n % 10));
        text
    }
}

/// An integer in decimal.
pub(crate) fn write_signed(n: i32) -> (r: String)
    ensures
        r@ == signed_decimal(n as int),
{
    if n < 0 {
        proof {
            reveal_strlit("-");
        }
        let magnitude: u64 = (-(n as i64)) as u64;
        let mut text: String = "-".to_string();
        text.append(write_u64(magnitude).as_str());
        text
    } else {
        write_u64(n as u64)
    }
}

} // verus!
