//! Bytes as hexadecimal text, and back.

use vstd::prelude::*;

verus! {

/// The lower-case hexadecimal digit of a number under 16.
pub open spec fn hex_digit(n: int) -> char {
    if n == 0 {
        '0'
    } else if n == 1 {
        '1'
    } else if n == 2 {
        '2'
    } else if n == 3 {
        '3'
    } else if n == 4 {
        '4'
    } else if n == 5 {
        '5'
    } else if n == 6 {
        '6'
    } else if n == 7 {
        '7'
    } else if n == 8 {
        '8'
    } else if n == 9 {
        '9'
    } else if n == 10 {
        'a'
    } else if n == 11 {
        'b'
    } else if n == 12 {
        'c'
    } else if n == 13 {
        'd'
    } else if n == 14 {
        'e'
    } else {
        'f'
    }
}

/// The number that a hexadecimal digit of either case stands for.
pub open spec fn hex_value(c: char) -> Option<int> {
    let code = c as u32 as int;
    if 48 <= code <= 57 {
        Some(code - 48)
    } else if 97 <= code <= 102 {
        Some(code - 87)
    } else if 65 <= code <= 70 {
        Some(code - 55)
    } else {
        None
    }
}

/// Bytes in lower-case hexadecimal: two digits for each byte, the high half first.
pub open spec fn hex_lower(bytes: Seq<u8>) -> Seq<char> {
    Seq::new(
        2 * bytes.len(),
        |i: int|
            hex_digit(
                if i % 2 == 0 {
                    bytes[i / 2] as int / 16
                } else {
                    bytes[i / 2] as int % 16
                },
            ),
    )
}

/// Whether a text is hexadecimal: digits of either case, two for each byte.
pub open spec fn is_hex(text: Seq<char>) -> bool {
    text.len() % 2 == 0 && forall|i: int| 0 <= i < text.len() ==> hex_value(#[trigger] text[i]) is Some
}

/// The bytes that a hexadecimal text stands for.
pub open spec fn hex_decoding(text: Seq<char>) -> Option<Seq<u8>> {
    if is_hex(text) {
        Some(
            Seq::new(
                text.len() / 2,
                |i: int|
                    (16 * hex_value(text[2 * i]).unwrap() + hex_value(
                        text[2 * i + 1],
                    ).unwrap()) as u8,
            ),
        )
    } else {
        None
    }
}

/// `DisplayHex::as_hex` of the Bitcoin library's hex crate, written out:
/// the bytes in lower-case hexadecimal.
#[verifier::external_body]
pub(crate) fn to_hex(bytes: &Vec<u8>) -> (text: String)
    ensures
        text@ == hex_lower(bytes@),
{
    bitcoin::hex::DisplayHex::as_hex(bytes).to_string()
}

/// `hex::decode`: the bytes of a text that is hexadecimal, and nothing for
/// a text of odd length or with any other character.
#[verifier::external_body]
pub(crate) fn from_hex(text: &String) -> (bytes: Option<Vec<u8>>)
    ensures
        crate::classify::optional_bytes(bytes) == hex_decoding(text@),
{
    match hex::decode(text) {
        Ok(bytes) => Some(bytes),
        Err(_) => None,
    }
}

/// A digit stands for the number it was written for.
proof fn lemma_digit_value(n: int)
    requires
        0 <= n < 16,
    ensures
        hex_value(hex_digit(n)) == Some(n),
{
}

/// Bytes written in hexadecimal read back as themselves.
pub proof fn lemma_hex_round_trip(bytes: Seq<u8>)
    ensures
        hex_decoding(hex_lower(bytes)) == Some(bytes),
{
    let text = hex_lower(bytes);
    assert forall|i: int| 0 <= i < text.len() implies hex_value(#[trigger] text[i]) is Some by {
        let b = bytes[i / 2] as int;
        lemma_digit_value(b / 16);
        lemma_digit_value(b % 16);
    }
    assert(is_hex(text));
    let decoded = hex_decoding(text).unwrap();
    assert(decoded.len() == bytes.len());
    assert forall|i: int| 0 <= i < bytes.len() implies decoded[i] == bytes[i] by {
        let b = bytes[i] as int;
        lemma_digit_value(b / 16);
        lemma_digit_value(b % 16);
        assert((2 * i) / 2 == i && (2 * i) % 2 == 0);
        assert((2 * i + 1) / 2 == i && (2 * i + 1) % 2 == 1);
        assert(text[2 * i] == hex_digit(b / 16));
        assert(text[2 * i + 1] == hex_digit(b % 16));
        assert(16 * (b / 16) + b % 16 == b);
    }
    assert(decoded =~= bytes);
}

} // verus!
