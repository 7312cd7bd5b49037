//! Calls into the standard library that vstd gives no specification for.
use vstd::prelude::*;
use vstd::utf8::{decode_utf8, valid_utf8};

verus! {

pub open spec fn is_digit(c: char) -> bool {
    '0' <= c && c <= '9'
}

pub open spec fn digit_value(c: char) -> nat {
    (c as int - '0' as int) as nat
}

pub open spec fn digit_char(d: nat) -> char {
    seq!['0', '1', '2', '3', '4', '5', '6', '7', '8', '9'][d as int]
}

/// The decimal digits of a number, without leading zeros.
pub open spec fn nat_decimal(n: nat) -> Seq<char>
    decreases n,
{
    if n < 10 {
        seq![digit_char(n)]
    } else {
        nat_decimal(n / 10).push(digit_char(n % 10))
    }
}

/// The number a nonempty run of decimal digits writes (`None` for any other text).
pub open spec fn digits_value(text: Seq<char>) -> Option<nat>
    decreases text.len(),
{
    if text.len() == 0 || !is_digit(text.last()) {
        None
    } else if text.len() == 1 {
        Some(digit_value(text.last()))
    } else {
        match digits_value(text.drop_last()) {
            Some(v) => Some(v * 10 + digit_value(text.last())),
            None => None,
        }
    }
}

/// The number an unsigned integer's text writes: an optional `+` and then only digits.
pub open spec fn unsigned_text_value(text: Seq<char>) -> Option<nat> {
    if text.len() > 0 && text[0] == '+' {
        digits_value(text.drop_first())
    } else {
        digits_value(text)
    }
}

/// The message of the `ParseIntError` that `<u16 as FromStr>::from_str` returns for a text.
pub uninterp spec fn u16_parse_error(text: Seq<char>) -> Seq<char>;

/// The message of the `ParseIntError` that `<u8 as FromStr>::from_str` returns for a text.
pub uninterp spec fn u8_parse_error(text: Seq<char>) -> Seq<char>;

/// What `<u16 as FromStr>::from_str` gives for a text, its error shown through `Display`.
pub open spec fn u16_parse(text: Seq<char>) -> Result<u16, Seq<char>> {
    match unsigned_text_value(text) {
        Some(v) => if v <= 65535 {
            Ok(v as u16)
        } else {
            Err(u16_parse_error(text))
        },
        None => Err(u16_parse_error(text)),
    }
}

/// What `<u8 as FromStr>::from_str` gives for a text, its error shown through `Display`.
pub open spec fn u8_parse(text: Seq<char>) -> Result<u8, Seq<char>> {
    match unsigned_text_value(text) {
        Some(v) => if v <= 255 {
            Ok(v as u8)
        } else {
            Err(u8_parse_error(text))
        },
        None => Err(u8_parse_error(text)),
    }
}

/// The message of the `ParseBoolError` that `<bool as FromStr>::from_str` returns for a text.
pub uninterp spec fn bool_parse_error(text: Seq<char>) -> Seq<char>;

/// The decimal text that `Display` gives for an `i32`: a `-` before the digits of a
/// negative number.
pub open spec fn i32_decimal(n: i32) -> Seq<char> {
    if n < 0 {
        seq!['-'] + nat_decimal((-(n as int)) as nat)
    } else {
        nat_decimal(n as nat)
    }
}

/// The decimal text that `Display` gives for a `usize`.
pub open spec fn usize_decimal(n: usize) -> Seq<char> {
    nat_decimal(n as nat)
}

/// The text that `Debug` gives for a `str` (the text quoted, with escapes).
pub uninterp spec fn str_debug(text: Seq<char>) -> Seq<char>;

/// The message of the `FromUtf8Error` that `String::from_utf8` returns for bytes.
pub uninterp spec fn utf8_error_text(bytes: Seq<u8>) -> Seq<char>;

/// `<u16 as FromStr>::from_str`, the error turned into its message. As documented, it
/// accepts an optional `+` followed by only decimal digits, and fails on an empty text, on
/// any other character and on a number above `u16::MAX`; the error's message is left to a
/// name.
#[verifier::external_body]
pub(crate) fn parse_u16(text: &str) -> (r: Result<u16, String>)
    ensures
        match r {
            Ok(v) => u16_parse(text@) == Ok::<u16, Seq<char>>(v),
            Err(e) => u16_parse(text@) == Err::<u16, Seq<char>>(e@) && e@ == u16_parse_error(text@),
        },
{
    text.parse::<u16>().map_err(|e| e.to_string())
}

/// `<u8 as FromStr>::from_str`, the error turned into its message. As documented, it
/// accepts an optional `+` followed by only decimal digits, and fails on an empty text, on
/// any other character and on a number above `u8::MAX`; the error's message is left to a
/// name.
#[verifier::external_body]
pub(crate) fn parse_u8(text: &str) -> (r: Result<u8, String>)
    ensures
        match r {
            Ok(v) => u8_parse(text@) == Ok::<u8, Seq<char>>(v),
            Err(e) => u8_parse(text@) == Err::<u8, Seq<char>>(e@) && e@ == u8_parse_error(text@),
        },
{
    text.parse::<u8>().map_err(|e| e.to_string())
}

/// `<bool as FromStr>::from_str`: as documented, exactly "true" and "false" are accepted;
/// the wording of the error is left to a name.
#[verifier::external_body]
pub(crate) fn parse_bool(text: &str) -> (r: Result<bool, String>)
    ensures
        match r {
            Ok(b) => (text@ == "true"@ && b) || (text@ == "false"@ && !b),
            Err(e) => text@ != "true"@ && text@ != "false"@ && e@ == bool_parse_error(text@),
        },
{
    text.parse::<bool>().map_err(|e| e.to_string())
}

/// `i32::to_string`: its decimal text.
#[verifier::external_body]
pub(crate) fn i32_to_string(n: i32) -> (s: String)
    ensures
        s@ == i32_decimal(n),
{
    n.to_string()
}

/// `usize::to_string`: its decimal text.
#[verifier::external_body]
pub(crate) fn usize_to_string(n: usize) -> (s: String)
    ensures
        s@ == usize_decimal(n),
{
    n.to_string()
}

/// `format!("{:?}", text)`: the quoted text, left to a name.
#[verifier::external_body]
pub(crate) fn str_to_debug_string(text: &str) -> (s: String)
    ensures
        s@ == str_debug(text@),
{
    format!("{:?}", text)
}

/// `String::from_utf8`: as documented, it succeeds exactly on valid UTF-8, and then holds
/// the characters the bytes encode; the error's message is left to a name.
#[verifier::external_body]
pub(crate) fn string_from_utf8(bytes: Vec<u8>) -> (r: Result<String, String>)
    ensures
        r is Ok <==> valid_utf8(bytes@),
        r matches Ok(s) ==> s@ == decode_utf8(bytes@),
        r matches Err(e) ==> e@ == utf8_error_text(bytes@),
{
    String::from_utf8(bytes).map_err(|e| e.to_string())
}

} // verus!
