//! Texts that cross the boundary as C strings.
//!
//! A C string is a run of bytes that ends at the first zero byte. A text can
//! travel as one only if it holds no zero itself, and bytes that arrive as
//! one are a text only if they are UTF-8.

use vstd::prelude::*;
use vstd::string::{StrSliceExecFns, StringExecFns, StringSliceAdditionalSpecFns};
use vstd::utf8::valid_utf8;

verus! {

/// The decimal digit `digit`, for `digit` below ten.
pub open spec fn digit_text(digit: int) -> Seq<char> {
    if digit == 0 {
        "0"@
    } else if digit == 1 {
        "1"@
    } else if digit == 2 {
        "2"@
    } else if digit == 3 {
        "3"@
    } else if digit == 4 {
        "4"@
    } else if digit == 5 {
        "5"@
    } else if digit == 6 {
        "6"@
    } else if digit == 7 {
        "7"@
    } else if digit == 8 {
        "8"@
    } else {
        "9"@
    }
}

/// `value` in decimal, without leading zeros.
pub open spec fn decimal_text(value: nat) -> Seq<char>
    decreases value,
{
    if value < 10 {
        digit_text(value as int)
    } else {
        decimal_text(value / 10) + digit_text((value % 10) as int)
    }
}

/// `value` in decimal, with a minus sign in front where it is negative.
pub open spec fn signed_decimal_text(value: int) -> Seq<char> {
    if value < 0 {
        "-"@ + decimal_text((-value) as nat)
    } else {
        decimal_text(value as nat)
    }
}

fn digit_str(digit: u64) -> (text: &'static str)
    requires
        digit < 10,
    ensures
        text@ == digit_text(digit as int),
{
    if digit == 0 {
        "0"
    } else if digit == 1 {
        "1"
    } else if digit == 2 {
        "2"
    } else if digit == 3 {
        "3"
    } else if digit == 4 {
        "4"
    } else if digit == 5 {
        "5"
    } else if digit == 6 {
        "6"
    } else if digit == 7 {
        "7"
    } else if digit == 8 {
        "8"
    } else {
        "9"
    }
}

/// Writes `value` in decimal at the end of `out`.
pub fn append_decimal(out: &mut String, value: u64)
    ensures
        final(out)@ == old(out)@ + decimal_text(value as nat),
    decreases value,
{
    if value >= 10 {
        append_decimal(out, value / 10);
    }
    out.append(digit_str(value % 10));
}

/// Writes `value` in decimal at the end of `out`, with its sign where it is
/// negative.
pub fn append_signed_decimal(out: &mut String, value: i32)
    ensures
        final(out)@ == old(out)@ + signed_decimal_text(value as int),
{
    if value < 0 {
        out.append("-");
        let magnitude: i64 = -(value as i64);
        append_decimal(out, magnitude as u64);
    } else {
        append_decimal(out, value as u64);
    }
}

/// Whether `text` holds the character that ends a C string.
pub fn has_nul(text: &str) -> (found: bool)
    ensures
        found == text@.contains('\0'),
{
    let mut found = false;
    for c in it: text.chars()
        invariant
            it.seq() == text@,
            found == exists|i: int| 0 <= i < it.index() && text@[i] == '\0',
    {
        if c == '\0' {
            found = true;
        }
    }
    found
}

/// `std::str::from_utf8`: the bytes as a text where they are UTF-8, and
/// nothing where they are not.
#[verifier::external_body]
fn text_from_utf8(bytes: &[u8]) -> (text: Option<&str>)
    ensures
        text is Some <==> valid_utf8(bytes@),
        text matches Some(decoded) ==> decoded.spec_bytes() == bytes@,
{
    std::str::from_utf8(bytes).ok()
}

/// Reads the bytes of a C string, without the zero that ended it, as a text.
/// There is no text where the pointer was null (`None`) or where the bytes
/// are not UTF-8.
pub fn c_str_to_str<'a>(bytes: Option<&'a [u8]>) -> (text: Option<&'a str>)
    ensures
        text is Some <==> (bytes matches Some(given) && valid_utf8(given@)),
        text matches Some(decoded) ==> decoded.spec_bytes() == bytes->0@,
{
    match bytes {
        Some(given) => text_from_utf8(given),
        None => None,
    }
}

/// As [`c_str_to_str`], with a text of its own.
pub fn c_str_to_string(bytes: Option<&[u8]>) -> (text: Option<String>)
    ensures
        text is Some <==> (bytes matches Some(given) && valid_utf8(given@)),
        text matches Some(decoded) ==> decoded@ == vstd::utf8::decode_utf8(bytes->0@),
{
    match c_str_to_str(bytes) {
        Some(decoded) => {
            proof {
                vstd::utf8::encode_utf8_decode_utf8(decoded@);
            }
            Some(decoded.to_owned())
        },
        None => None,
    }
}

/// The bytes of a C string that holds `text`: the UTF-8 bytes of the text
/// and a zero after them.
pub open spec fn c_string_bytes(text: Seq<char>) -> Seq<u8> {
    vstd::utf8::encode_utf8(text).push(0u8)
}

/// The bytes of `text` as a C string: its UTF-8 bytes and a zero after
/// them. A text that holds a zero character cannot travel as a C string, and
/// gets none.
pub fn string_to_c_string(text: &str) -> (bytes: Option<Vec<u8>>)
    ensures
        bytes is Some <==> !text@.contains('\0'),
        bytes matches Some(written) ==> written@ == c_string_bytes(text@),
{
    if has_nul(text) {
        None
    } else {
        let mut written = text.as_bytes_vec();
        written.push(0u8);
        Some(written)
    }
}

} // verus!
