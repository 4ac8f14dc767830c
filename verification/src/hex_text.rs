//! Hexadecimal text, as the block explorer writes scripts.

use vstd::prelude::*;

verus! {

/// The value of the hexadecimal digit `c`, if it is one. Both cases count.
pub open spec fn hex_digit_value(c: char) -> Option<int> {
    let code = c as int;
    if 48 <= code <= 57 {
        Some(code - 48)
    } else if 97 <= code <= 102 {
        Some(code - 97 + 10)
    } else if 65 <= code <= 70 {
        Some(code - 65 + 10)
    } else {
        None
    }
}

/// Whether `text` spells bytes in hexadecimal: an even number of characters,
/// each a hexadecimal digit.
pub open spec fn is_hex_text(text: Seq<char>) -> bool {
    &&& text.len() % 2 == 0
    &&& forall|i: int| 0 <= i < text.len() ==> hex_digit_value(#[trigger] text[i]) is Some
}

/// The bytes that `text` spells: one for each pair of digits, the first
/// digit of a pair being the high half.
pub open spec fn hex_bytes(text: Seq<char>) -> Seq<u8> {
    Seq::new(
        text.len() / 2,
        |i: int| (16 * hex_digit_value(text[2 * i])->0 + hex_digit_value(text[2 * i + 1])->0) as u8,
    )
}

/// Decodes hexadecimal text with `hex::decode`. That function fails on an
/// odd length and on any character that is no hexadecimal digit, and
/// otherwise gives one byte for each pair of digits, high half first.
#[verifier::external_body]
pub(crate) fn decode_hex(text: &str) -> (bytes: Option<Vec<u8>>)
    ensures
        bytes is Some <==> is_hex_text(text@),
        bytes is Some ==> bytes->0@ == hex_bytes(text@),
{
    match hex::decode(text) {
        Ok(bytes) => Some(bytes),
        Err(_) => None,
    }
}

} // verus!
