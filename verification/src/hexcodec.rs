//! Hexadecimal text, as the transport carries identifiers, encodings and signatures.

use vstd::prelude::*;

verus! {

/// The error of `hex::decode`: an odd length, or a character that is no digit.
#[verifier::external_type_specification]
#[verifier::external_body]
pub struct ExFromHexError(hex::FromHexError);

/// The lower-case digit of a value below sixteen.
pub open spec fn spec_hex_digit(nibble: int) -> char {
    if nibble == 0 { '0' }
    else if nibble == 1 { '1' }
    else if nibble == 2 { '2' }
    else if nibble == 3 { '3' }
    else if nibble == 4 { '4' }
    else if nibble == 5 { '5' }
    else if nibble == 6 { '6' }
    else if nibble == 7 { '7' }
    else if nibble == 8 { '8' }
    else if nibble == 9 { '9' }
    else if nibble == 10 { 'a' }
    else if nibble == 11 { 'b' }
    else if nibble == 12 { 'c' }
    else if nibble == 13 { 'd' }
    else if nibble == 14 { 'e' }
    else { 'f' }
}

/// The text of a byte string: two lower-case digits for each byte, the high one first.
pub open spec fn spec_hex_encode(data: Seq<u8>) -> Seq<char> {
    Seq::new(
        2 * data.len(),
        |i: int| if i % 2 == 0 {
            spec_hex_digit(data[i / 2] as int / 16)
        } else {
            spec_hex_digit(data[i / 2] as int % 16)
        },
    )
}

/// The value of a hexadecimal digit of either case, and nothing for any other character.
pub open spec fn spec_hex_value(c: char) -> Option<int> {
    if '0' <= c && c <= '9' {
        Some(c as int - '0' as int)
    } else if 'a' <= c && c <= 'f' {
        Some(c as int - 'a' as int + 10)
    } else if 'A' <= c && c <= 'F' {
        Some(c as int - 'A' as int + 10)
    } else {
        None
    }
}

/// Whether a text is an even number of hexadecimal digits.
pub open spec fn spec_is_hex(text: Seq<char>) -> bool {
    &&& text.len() % 2 == 0
    &&& forall|i: int| 0 <= i < text.len() ==> (#[trigger] spec_hex_value(text[i])) is Some
}

/// The bytes that a hexadecimal text stands for.
pub open spec fn spec_hex_decode(text: Seq<char>) -> Seq<u8> {
    Seq::new(
        text.len() / 2,
        |i: int| (spec_hex_value(text[2 * i]).unwrap() * 16 + spec_hex_value(
            text[2 * i + 1],
        ).unwrap()) as u8,
    )
}

/// `hex::encode` of the `hex` crate: it walks the bytes in order and emits for
/// each the digit of its high half and then the digit of its low half, taken
/// from the table `0123456789abcdef`.
#[verifier::external_body]
pub(crate) fn hex_encode(data: &[u8]) -> (text: String)
    ensures
        text@ == spec_hex_encode(data@),
{
    hex::encode(data)
}

/// `hex::decode` of the `hex` crate, on the bytes of a text: it fails on an odd
/// length and on any byte that is not a digit `0-9`, `a-f` or `A-F`; otherwise
/// each pair of digits gives one byte, the first digit its high half.
#[verifier::external_body]
pub(crate) fn hex_decode(text: &str) -> (decoded: Result<Vec<u8>, hex::FromHexError>)
    ensures
        decoded is Ok <==> spec_is_hex(text@),
        decoded matches Ok(bytes) ==> bytes@ == spec_hex_decode(text@),
{
    hex::decode(text)
}

/// The text of a byte string in lower-case hexadecimal.
pub fn encode(data: &[u8]) -> (text: String)
    ensures
        text@ == spec_hex_encode(data@),
{
    hex_encode(data)
}

/// The bytes of a hexadecimal text, if it is one.
pub fn decode(text: &str) -> (decoded: Option<Vec<u8>>)
    ensures
        decoded is Some <==> spec_is_hex(text@),
        decoded matches Some(bytes) ==> bytes@ == spec_hex_decode(text@),
{
    match hex_decode(text) {
        Ok(bytes) => Some(bytes),
        Err(_) => None,
    }
}

/// Decoding undoes encoding.
pub proof fn lemma_decode_encode(data: Seq<u8>)
    ensures
        spec_is_hex(spec_hex_encode(data)),
        spec_hex_decode(spec_hex_encode(data)) == data,
{
    let text = spec_hex_encode(data);
    assert forall|i: int| 0 <= i < text.len() implies (#[trigger] spec_hex_value(text[i])) is Some by {
        lemma_digit_value(data[i / 2] as int / 16);
        lemma_digit_value(data[i / 2] as int % 16);
    }
    assert forall|i: int| 0 <= i < data.len() implies spec_hex_decode(text)[i] == data[i] by {
        lemma_digit_value(data[i] as int / 16);
        lemma_digit_value(data[i] as int % 16);
        assert(text[2 * i] == spec_hex_digit(data[i] as int / 16));
        assert(text[2 * i + 1] == spec_hex_digit(data[i] as int % 16));
    }
    assert(spec_hex_decode(text) =~= data);
}

/// A digit stands for the value it was made from.
pub proof fn lemma_digit_value(nibble: int)
    requires
        0 <= nibble < 16,
    ensures
        spec_hex_value(spec_hex_digit(nibble)) == Some(nibble),
{
}

/// Whether a character is a digit of lower-case hexadecimal.
pub open spec fn spec_is_lower_hex_digit(c: char) -> bool {
    ('0' <= c && c <= '9') || ('a' <= c && c <= 'f')
}

/// Whether a text is an even number of lower-case hexadecimal digits.
pub open spec fn spec_is_lower_hex(text: Seq<char>) -> bool {
    &&& text.len() % 2 == 0
    &&& forall|i: int| 0 <= i < text.len() ==> #[trigger] spec_is_lower_hex_digit(text[i])
}

/// The text of a byte string has two digits for each byte, all of them
/// lower-case hexadecimal: it is empty only for no bytes.
pub proof fn law_encoding_is_lower_hex(data: Seq<u8>)
    ensures
        spec_hex_encode(data).len() == 2 * data.len(),
        spec_is_lower_hex(spec_hex_encode(data)),
        data.len() > 0 ==> spec_hex_encode(data).len() > 0,
{
    let text = spec_hex_encode(data);
    assert forall|i: int| 0 <= i < text.len() implies #[trigger] spec_is_lower_hex_digit(
        text[i],
    ) by {
        let high = data[i / 2] as int / 16;
        let low = data[i / 2] as int % 16;
        assert(0 <= high < 16 && 0 <= low < 16);
        assert(spec_is_lower_hex_digit(spec_hex_digit(high)));
        assert(spec_is_lower_hex_digit(spec_hex_digit(low)));
    }
}

} // verus!
