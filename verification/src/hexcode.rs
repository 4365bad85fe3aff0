//! Lowercase hexadecimal text, as the providers receive it.

use vstd::prelude::*;

verus! {

/// The lowercase digit that stands for a value below sixteen.
pub open spec fn hex_digit(value: int) -> char {
    if value < 10 {
        ('0' as int + value) as char
    } else {
        ('a' as int + value - 10) as char
    }
}

/// The value that a hexadecimal digit stands for, in either letter case.
pub open spec fn hex_value(digit: char) -> Option<int> {
    let code = digit as int;
    if '0' as int <= code <= '9' as int {
        Some(code - '0' as int)
    } else if 'a' as int <= code <= 'f' as int {
        Some(code - 'a' as int + 10)
    } else if 'A' as int <= code <= 'F' as int {
        Some(code - 'A' as int + 10)
    } else {
        None
    }
}

/// The text of a byte string: two digits for each byte, the high half first,
/// with nothing before, between or after them.
pub open spec fn hex_text(bytes: Seq<u8>) -> Seq<char> {
    Seq::new(
        2 * bytes.len(),
        |i: int|
            if i % 2 == 0 {
                hex_digit(bytes[i / 2] as int / 16)
            } else {
                hex_digit(bytes[i / 2] as int % 16)
            },
    )
}

/// A text that stands for a byte string: digits only, and an even number of
/// them.
pub open spec fn is_hex_text(text: Seq<char>) -> bool {
    &&& text.len() % 2 == 0
    &&& forall|i: int| 0 <= i < text.len() ==> (#[trigger] hex_value(text[i])) is Some
}

/// The byte string that a text stands for, if it stands for one.
pub open spec fn hex_bytes(text: Seq<char>) -> Option<Seq<u8>> {
    if is_hex_text(text) {
        Some(
            Seq::new(
                text.len() / 2,
                |k: int| (16 * hex_value(text[2 * k])->0 + hex_value(text[2 * k + 1])->0) as u8,
            ),
        )
    } else {
        None
    }
}

/// Calls `hex::encode`, which walks the bytes in order and writes for each the
/// digit of its high four bits and then the digit of its low four bits, taken
/// from the table `0123456789abcdef`. The contract claims exactly that text.
#[verifier::external_body]
pub(crate) fn hex_encode(data: &Vec<u8>) -> (text: String)
    ensures
        text@ == hex_text(data@),
{
    hex::encode(data)
}

/// A digit gives back the value it was written for.
pub proof fn hex_digit_value(value: int)
    requires
        0 <= value < 16,
    ensures
        hex_value(hex_digit(value)) == Some(value),
        hex_digit(value) != ' ',
        (hex_digit(value) as int) < 128,
{
}

/// No digit of a hexadecimal text is a space, and each is an ASCII character.
pub proof fn hex_text_is_plain(bytes: Seq<u8>)
    ensures
        hex_text(bytes).len() == 2 * bytes.len(),
        forall|i: int|
            0 <= i < hex_text(bytes).len() ==> (#[trigger] hex_text(bytes)[i]) != ' ' && (
            hex_text(bytes)[i] as int) < 128,
{
    assert forall|i: int| 0 <= i < hex_text(bytes).len() implies (#[trigger] hex_text(bytes)[i])
        != ' ' && (hex_text(bytes)[i] as int) < 128 by {
        let byte = bytes[i / 2] as int;
        hex_digit_value(byte / 16);
        hex_digit_value(byte % 16);
    }
}

/// Reading a hexadecimal text back gives the bytes it was written from.
pub proof fn hex_round_trip(bytes: Seq<u8>)
    ensures
        hex_bytes(hex_text(bytes)) == Some(bytes),
{
    let text = hex_text(bytes);
    assert forall|i: int| 0 <= i < text.len() implies (#[trigger] hex_value(text[i])) is Some by {
        let byte = bytes[i / 2] as int;
        hex_digit_value(byte / 16);
        hex_digit_value(byte % 16);
    }
    assert(is_hex_text(text));
    let back = hex_bytes(text)->0;
    assert(back.len() == bytes.len());
    assert forall|k: int| 0 <= k < bytes.len() implies back[k] == bytes[k] by {
        let byte = bytes[k] as int;
        hex_digit_value(byte / 16);
        hex_digit_value(byte % 16);
        assert((2 * k) % 2 == 0 && (2 * k) / 2 == k);
        assert((2 * k + 1) % 2 == 1 && (2 * k + 1) / 2 == k);
        assert(text[2 * k] == hex_digit(byte / 16));
        assert(text[2 * k + 1] == hex_digit(byte % 16));
        assert(16 * (byte / 16) + byte % 16 == byte);
    }
    assert(back =~= bytes);
}

} // verus!
