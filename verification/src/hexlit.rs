//! Hexadecimal text, decoded by the `hex` crate.

use vstd::prelude::*;
use vstd::utf8::encode_utf8;

verus! {

/// The error of the `hex` crate. Nothing is read from it: every failure to
/// decode is the same to this library.
#[verifier::external_type_specification]
#[verifier::external_body]
pub struct ExFromHexError(hex::FromHexError);

/// The value of a hexadecimal digit given as a byte of text, if it is one.
/// Letters count in upper and in lower case.
pub open spec fn hex_digit_value(b: u8) -> Option<u8> {
    if 48 <= b <= 57 {
        Some((b - 48) as u8)
    } else if 65 <= b <= 70 {
        Some((b - 65 + 10) as u8)
    } else if 97 <= b <= 102 {
        Some((b - 97 + 10) as u8)
    } else {
        None
    }
}

/// Whether the bytes are hexadecimal text: digits only, an even number of
/// them.
pub open spec fn is_hex_text(bytes: Seq<u8>) -> bool {
    bytes.len() % 2 == 0 && forall|i: int|
        0 <= i < bytes.len() ==> hex_digit_value(#[trigger] bytes[i]) is Some
}

/// The byte that two hexadecimal digits stand for, the high one first.
pub open spec fn hex_pair_value(high: u8, low: u8) -> u8 {
    (hex_digit_value(high).unwrap() * 16 + hex_digit_value(low).unwrap()) as u8
}

/// The bytes that hexadecimal text stands for: one for each two digits.
pub open spec fn hex_decoded(bytes: Seq<u8>) -> Seq<u8> {
    Seq::new(bytes.len() / 2, |i: int| hex_pair_value(bytes[2 * i], bytes[2 * i + 1]))
}

/// Calls `hex::decode` on the text, which it reads as the bytes of its UTF-8
/// form. The contract is taken on trust from that crate: the call succeeds
/// if and only if the text is an even number of hexadecimal digits, and then
/// gives one byte for each two digits, the first digit of a pair in the high
/// half of the byte.
#[verifier::external_body]
pub(crate) fn decode_hex(text: &str) -> (r: Result<Vec<u8>, hex::FromHexError>)
    ensures
        r is Ok <==> is_hex_text(encode_utf8(text@)),
        r is Ok ==> r->Ok_0@ == hex_decoded(encode_utf8(text@)),
{
    hex::decode(text)
}

} // verus!
