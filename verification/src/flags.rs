//! Decoding the agreed answer into flags.
//!
//! The agreed answer is a text with one character for each token of the
//! batch, in the order of the batch: `1` for a flagged token and `0` for one
//! that is not. Any other character makes the whole text unreadable.

use vstd::prelude::*;
use vstd::string::is_ascii_spec_bytes;
use vstd::utf8::{encode_utf8, is_ascii_chars, is_ascii_chars_encode_utf8};

verus! {

/// Why an agreed answer could not be decoded.
#[derive(Clone, Copy, Debug, PartialEq, Eq, Structural)]
pub enum DecodingError {
    /// The answer holds a character that is neither `0` nor `1`.
    UnknownFlag,
}

/// The character stands for a flag.
pub open spec fn is_flag_char(c: char) -> bool {
    c == '0' || c == '1'
}

/// The flag that a character stands for.
pub open spec fn flag_of(c: char) -> u8 {
    if c == '1' {
        1
    } else {
        0
    }
}

/// The character that stands for a flag.
pub open spec fn char_of(flag: u8) -> char {
    if flag == 1 {
        '1'
    } else {
        '0'
    }
}

/// Every character of the text stands for a flag.
pub open spec fn is_flag_text(text: Seq<char>) -> bool {
    forall|i: int| 0 <= i < text.len() ==> is_flag_char(#[trigger] text[i])
}

/// Every entry of the sequence is a flag: zero or one.
pub open spec fn is_flag_seq(flags: Seq<u8>) -> bool {
    forall|i: int| 0 <= i < flags.len() ==> (#[trigger] flags[i]) <= 1
}

/// The text that stands for a sequence of flags, character by character.
pub open spec fn encoded(flags: Seq<u8>) -> Seq<char> {
    Seq::new(flags.len(), |i: int| char_of(flags[i]))
}

/// The flags that a text stands for, character by character and in the same
/// order, if every character stands for a flag.
pub open spec fn decoded(text: Seq<char>) -> Result<Seq<u8>, DecodingError> {
    if is_flag_text(text) {
        Ok(Seq::new(text.len(), |i: int| flag_of(text[i])))
    } else {
        Err(DecodingError::UnknownFlag)
    }
}

/// What decoding hands on: the flags as a sequence, or the error as it is.
pub open spec fn flags_of(outcome: Result<Vec<u8>, DecodingError>) -> Result<
    Seq<u8>,
    DecodingError,
> {
    match outcome {
        Ok(flags) => Ok(flags@),
        Err(fault) => Err(fault),
    }
}

impl DecodingError {
    /// The text under which the fault is reported.
    pub open spec fn message_text(self) -> Seq<char> {
        "Unknown flag"@
    }

    /// The text under which the fault is reported.
    pub fn message(&self) -> (text: &'static str)
        ensures
            text@ == self.message_text(),
    {
        "Unknown flag"
    }
}

/// Decoding undoes encoding: the text written for a sequence of flags is
/// read back as that sequence.
pub proof fn decode_inverts_encode(flags: Seq<u8>)
    requires
        is_flag_seq(flags),
    ensures
        is_flag_text(encoded(flags)),
        decoded(encoded(flags)) == Ok::<Seq<u8>, DecodingError>(flags),
{
    let text = encoded(flags);
    assert(is_flag_text(text));
    assert(decoded(text)->Ok_0 =~= flags);
}

/// Encoding undoes decoding: the flags read from a text are written back as
/// that text, and they are flags.
pub proof fn encode_inverts_decode(text: Seq<char>)
    requires
        is_flag_text(text),
    ensures
        decoded(text) is Ok,
        is_flag_seq(decoded(text)->Ok_0),
        encoded(decoded(text)->Ok_0) == text,
{
    assert(encoded(decoded(text)->Ok_0) =~= text);
}

/// A text of flags is ASCII text, so it has as many bytes as characters.
pub proof fn flag_text_is_ascii(text: Seq<char>)
    requires
        is_flag_text(text),
    ensures
        is_ascii_chars(text),
        encode_utf8(text).len() == text.len(),
{
    assert(is_ascii_chars(text));
    is_ascii_chars_encode_utf8(text);
}

/// Decodes a text into flags. The text is read character by character:
/// `0` gives 0 and `1` gives 1, each at the place of its character. A text
/// with any other character is not decoded at all.
pub fn decode_flags(text: &str) -> (outcome: Result<Vec<u8>, DecodingError>)
    ensures
        flags_of(outcome) == decoded(text@),
        outcome is Ok <==> is_flag_text(text@),
        outcome matches Ok(flags) ==> flags@.len() == text@.len() && is_flag_seq(flags@),
{
    if !text.is_ascii() {
        return Err(DecodingError::UnknownFlag);
    }
    let bytes = text.as_bytes();
    proof {
        is_ascii_spec_bytes(text);
    }
    let mut flags: Vec<u8> = Vec::new();
    let mut at: usize = 0;
    while at < bytes.len()
        invariant
            is_ascii_chars(text@),
            bytes@.len() == text@.len(),
            forall|i: int| 0 <= i < text@.len() ==> bytes@[i] == (#[trigger] text@[i]) as u8,
            at <= bytes@.len(),
            flags@.len() == at,
            forall|i: int| 0 <= i < at ==> is_flag_char(#[trigger] text@[i]),
            forall|i: int| 0 <= i < at ==> (#[trigger] flags@[i]) == flag_of(text@[i]),
        decreases bytes@.len() - at,
    {
        let byte: u8 = bytes[at];
        assert(byte == text@[at as int] as u8);
        if byte == 0x30 {
            flags.push(0);
        } else if byte == 0x31 {
            flags.push(1);
        } else {
            assert(!is_flag_char(text@[at as int]));
            return Err(DecodingError::UnknownFlag);
        }
        at += 1;
    }
    assert(flags@ =~= decoded(text@)->Ok_0);
    Ok(flags)
}

} // verus!
