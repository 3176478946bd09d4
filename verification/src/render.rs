//! Numbers as text: decimal, hexadecimal and binary digits appended to a
//! `String`, for error messages and for the trace of executed instructions.

use vstd::prelude::*;

verus! {

/// `String::push` appends one character to the string.
pub assume_specification[ String::push ](s: &mut String, c: char)
    ensures
        final(s)@ == old(s)@.push(c),
;

/// `String::pop` removes the last character of the string and returns it;
/// of an empty string it removes nothing and returns `None`.
pub assume_specification[ String::pop ](s: &mut String) -> (c: Option<char>)
    ensures
        old(s)@.len() > 0 ==> c == Some(old(s)@.last()) && final(s)@ == old(s)@.drop_last(),
        old(s)@.len() == 0 ==> c is None && final(s)@ == old(s)@,
;

/// The character for a digit below 16, the letters in upper case.
pub open spec fn digit_char(d: u8) -> char
    recommends
        d < 16,
{
    if d < 10 {
        (48 + d) as u8 as char
    } else {
        (55 + d) as u8 as char
    }
}

/// A number in decimal, without leading zeros.
pub open spec fn decimal(n: nat) -> Seq<char>
    decreases n,
{
    if n < 10 {
        seq![digit_char(n as u8)]
    } else {
        decimal(n / 10).push(digit_char((n % 10) as u8))
    }
}

/// A byte in decimal, three digits wide, with leading zeros.
pub open spec fn decimal3(b: u8) -> Seq<char> {
    seq![digit_char(b / 100), digit_char((b / 10) % 10), digit_char(b % 10)]
}

/// A byte in hexadecimal: `0x` and two digits in upper case.
pub open spec fn hex_byte(b: u8) -> Seq<char> {
    seq!['0', 'x', digit_char(b / 16), digit_char(b % 16)]
}

/// The lowest `width` bits of a byte as binary digits, the highest first.
pub open spec fn binary(b: u8, width: nat) -> Seq<char>
    decreases width,
{
    if width == 0 {
        Seq::empty()
    } else {
        binary(b / 2, (width - 1) as nat).push(digit_char(b % 2))
    }
}

/// The character for a digit below 16.
pub fn digit_to_char(d: u8) -> (c: char)
    requires
        d < 16,
    ensures
        c == digit_char(d),
{
    if d < 10 {
        (48 + d) as char
    } else {
        (55 + d) as char
    }
}

/// Appends a number in decimal.
pub fn push_decimal(out: &mut String, n: usize)
    ensures
        final(out)@ == old(out)@ + decimal(n as nat),
    decreases n,
{
    if n >= 10 {
        push_decimal(out, n / 10);
    }
    out.push(digit_to_char((n % 10) as u8));
}

/// Appends a byte as three decimal digits.
pub fn push_decimal3(out: &mut String, b: u8)
    ensures
        final(out)@ == old(out)@ + decimal3(b),
{
    out.push(digit_to_char(b / 100));
    out.push(digit_to_char((b / 10) % 10));
    out.push(digit_to_char(b % 10));
}

/// Appends a byte as `0x` and two hexadecimal digits.
pub fn push_hex_byte(out: &mut String, b: u8)
    ensures
        final(out)@ == old(out)@ + hex_byte(b),
{
    out.push('0');
    out.push('x');
    out.push(digit_to_char(b / 16));
    out.push(digit_to_char(b % 16));
}

/// Appends the lowest `width` bits of a byte as binary digits.
pub fn push_binary(out: &mut String, b: u8, width: u8)
    ensures
        final(out)@ == old(out)@ + binary(b, width as nat),
    decreases width,
{
    if width > 0 {
        push_binary(out, b / 2, width - 1);
        out.push(digit_to_char(b % 2));
    }
}

/// Appends a piece of text.
pub fn push_text(out: &mut String, text: &str)
    ensures
        final(out)@ == old(out)@ + text@,
{
    out.append(text);
}

/// Appends the characters of a slice.
pub fn push_chars(out: &mut String, chars: &[char])
    ensures
        final(out)@ == old(out)@ + chars@,
{
    let mut i: usize = 0;
    while i < chars.len()
        invariant
            i <= chars.len(),
            out@ == old(out)@ + chars@.take(i as int),
        decreases chars.len() - i,
    {
        out.push(chars[i]);
        i += 1;
    }
}

/// The characters of a slice as a `String`.
pub fn string_of(chars: &[char]) -> (s: String)
    ensures
        s@ == chars@,
{
    let mut s = String::new();
    push_chars(&mut s, chars);
    s
}

/// The characters of a string slice.
pub fn chars_of(s: &str) -> (v: Vec<char>)
    ensures
        v@ == s@,
{
    let mut v: Vec<char> = Vec::new();
    let it = s.chars();
    for c in iter: it
        invariant
            v@ == iter.seq().take(iter.index() as int),
    {
        v.push(c);
    }
    v
}

} // verus!
