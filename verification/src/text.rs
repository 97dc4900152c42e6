//! Text helpers: decimal formatting and the few string operations the library needs.

use vstd::prelude::*;

verus! {

/// Appends `c` to `s` with `String::push`.
#[verifier::external_body]
pub fn string_push(s: &mut String, c: char)
    ensures
        final(s)@ == old(s)@.push(c),
{
    s.push(c)
}

/// Removes the last character of `s` with `String::pop` and returns it, or returns `None` and
/// leaves `s` alone when it is empty.
#[verifier::external_body]
pub fn string_pop(s: &mut String) -> (result: Option<char>)
    ensures
        old(s)@.len() == 0 ==> result is None && final(s)@ == old(s)@,
        old(s)@.len() > 0 ==> result == Some(old(s)@.last()) && final(s)@ == old(s)@.drop_last(),
{
    s.pop()
}

/// Compares two string slices with `str`'s `==`, which compares their characters.
#[verifier::external_body]
pub fn str_eq(a: &str, b: &str) -> (result: bool)
    ensures
        result == (a@ == b@),
{
    a == b
}

/// The ASCII lower case of one character: letters `A` to `Z` map to `a` to `z`, every other
/// character is kept.
pub open spec fn ascii_lower_char(c: char) -> char {
    if 'A' <= c && c <= 'Z' {
        ((c as u32) + 32) as char
    } else {
        c
    }
}

/// The ASCII lower case of a string.
pub open spec fn ascii_lowercase(s: Seq<char>) -> Seq<char> {
    s.map_values(|c: char| ascii_lower_char(c))
}

/// Returns the ASCII lower case of `s` with `str::to_ascii_lowercase`, which maps `A` to `Z` to
/// `a` to `z` and keeps every other character.
#[verifier::external_body]
pub fn to_ascii_lowercase(s: &str) -> (result: String)
    ensures
        result@ == ascii_lowercase(s@),
{
    s.to_ascii_lowercase()
}

/// The result of Unicode upper-casing `s`, as `str::to_uppercase` computes it.
pub uninterp spec fn unicode_uppercase(s: Seq<char>) -> Seq<char>;

/// Returns `s` in upper case with `str::to_uppercase`, which follows the Unicode case mapping.
#[verifier::external_body]
pub fn to_uppercase(s: &str) -> (result: String)
    ensures
        result@ == unicode_uppercase(s@),
{
    s.to_uppercase()
}

/// Whether `c` has the Unicode `Alphabetic` property, as `char::is_alphabetic` reports it.
pub uninterp spec fn unicode_alphabetic(c: char) -> bool;

/// Tells with `char::is_alphabetic` whether `c` has the Unicode `Alphabetic` property.
#[verifier::external_body]
pub fn is_alphabetic(c: char) -> (result: bool)
    ensures
        result == unicode_alphabetic(c),
{
    c.is_alphabetic()
}

/// The decimal digit for a number below ten.
pub open spec fn digit_char(d: nat) -> char {
    if d == 0 {
        '0'
    } else if d == 1 {
        '1'
    } else if d == 2 {
        '2'
    } else if d == 3 {
        '3'
    } else if d == 4 {
        '4'
    } else if d == 5 {
        '5'
    } else if d == 6 {
        '6'
    } else if d == 7 {
        '7'
    } else if d == 8 {
        '8'
    } else {
        '9'
    }
}

/// The decimal representation of a natural number, without leading zeros.
pub open spec fn decimal(n: nat) -> Seq<char>
    decreases n,
{
    if n < 10 {
        seq![digit_char(n)]
    } else {
        decimal(n / 10).push(digit_char(n % 10))
    }
}

/// The decimal representation of an integer, with a minus sign when it is negative.
pub open spec fn signed_decimal(n: int) -> Seq<char> {
    if n < 0 {
        seq!['-'] + decimal((-n) as nat)
    } else {
        decimal(n as nat)
    }
}

fn digit_of(d: u64) -> (c: char)
    requires
        d < 10,
    ensures
        c == digit_char(d as nat),
{
    if d == 0 {
        '0'
    } else if d == 1 {
        '1'
    } else if d == 2 {
        '2'
    } else if d == 3 {
        '3'
    } else if d == 4 {
        '4'
    } else if d == 5 {
        '5'
    } else if d == 6 {
        '6'
    } else if d == 7 {
        '7'
    } else if d == 8 {
        '8'
    } else {
        '9'
    }
}

/// Appends the decimal representation of `n` to `s`.
pub fn push_decimal(s: &mut String, n: u64)
    ensures
        final(s)@ == old(s)@ + decimal(n as nat),
    decreases n,
{
    if n < 10 {
        string_push(s, digit_of(n));
        assert(old(s)@.push(digit_char(n as nat)) =~= old(s)@ + decimal(n as nat));
    } else {
        push_decimal(s, n / 10);
        string_push(s, digit_of(n % 10));
        assert(old(s)@ + decimal((n / 10) as nat) + seq![digit_char((n % 10) as nat)]
            =~= old(s)@ + decimal(n as nat));
    }
}

/// Returns the decimal representation of `n`.
pub fn u64_to_string(n: u64) -> (result: String)
    ensures
        result@ == decimal(n as nat),
{
    let mut s = String::new();
    push_decimal(&mut s, n);
    assert(Seq::<char>::empty() + decimal(n as nat) =~= decimal(n as nat));
    s
}

/// Returns the decimal representation of `n`, with a minus sign when it is negative.
pub fn i64_to_string(n: i64) -> (result: String)
    ensures
        result@ == signed_decimal(n as int),
{
    let mut s = String::new();
    if n < 0 {
        string_push(&mut s, '-');
        let magnitude: u64 = (-(n as i128)) as u64;
        push_decimal(&mut s, magnitude);
    } else {
        push_decimal(&mut s, n as u64);
        assert(Seq::<char>::empty() + decimal(n as nat) =~= decimal(n as nat));
    }
    s
}

/// Whether a character is a decimal digit.
pub open spec fn is_digit(c: char) -> bool {
    '0' <= c && c <= '9'
}

/// Value of a string of decimal digits.
pub open spec fn digits_value(digits: Seq<char>) -> nat
    decreases digits.len(),
{
    if digits.len() == 0 {
        0
    } else {
        digits_value(digits.drop_last()) * 10 + ((digits.last() as u32) - ('0' as u32)) as nat
    }
}

/// The number a string denotes as an unsigned 32-bit integer: an optional plus sign followed by
/// at least one decimal digit, of a value that fits.
pub open spec fn parsed_u32(s: Seq<char>) -> Option<u32> {
    let digits = if s.len() > 0 && s[0] == '+' {
        s.drop_first()
    } else {
        s
    };
    if digits.len() > 0 && (forall|i: int| 0 <= i < digits.len() ==> is_digit(#[trigger] digits[i]))
        && digits_value(digits) <= u32::MAX {
        Some(digits_value(digits) as u32)
    } else {
        None
    }
}

/// The message of the error that `str::parse::<u32>` reports for a string it does not accept.
pub uninterp spec fn parse_int_message(s: Seq<char>) -> Seq<char>;

/// Parses `s` as a `u32` with `str::parse`, which accepts an optional plus sign followed by
/// decimal digits of a value that fits, and reports anything else as an error, whose message is
/// returned.
#[verifier::external_body]
pub fn parse_u32(s: &str) -> (result: Result<u32, String>)
    ensures
        match parsed_u32(s@) {
            Some(value) => result == Ok::<u32, String>(value),
            None => result is Err && result->Err_0@ == parse_int_message(s@),
        },
{
    match s.parse::<u32>() {
        Ok(value) => Ok(value),
        Err(error) => Err(format!("{}", error)),
    }
}

/// Whether `pattern` occurs in `text` as a run of consecutive characters.
pub open spec fn contains_text(text: Seq<char>, pattern: Seq<char>) -> bool {
    exists|i: int|
        0 <= i && i + pattern.len() <= text.len() && #[trigger] text.subrange(i, i + pattern.len())
            == pattern
}

/// Whether `str::find` finds `pattern` in `text`, which it does exactly when the pattern occurs
/// in the text.
#[verifier::external_body]
pub fn str_find_some(text: &str, pattern: &str) -> (result: bool)
    ensures
        result == contains_text(text@, pattern@),
{
    text.find(pattern).is_some()
}

} // verus!
