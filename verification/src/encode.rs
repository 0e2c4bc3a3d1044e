//! Characters: from key values to code points, and from code points to the
//! bytes written to the PTY.

use vstd::prelude::*;
use vstd::utf8::*;

verus! {

/// Number of bytes in the UTF-8 encoding of `c`.
pub open spec fn utf8_len(c: char) -> nat {
    let v = c as u32;
    if v <= 0x7F {
        1
    } else if v <= 0x7FF {
        2
    } else if v <= 0xFFFF {
        3
    } else {
        4
    }
}

/// The UTF-8 encoding of one character.
pub open spec fn char_bytes(c: char) -> Seq<u8> {
    encode_scalar(c as u32)
}

/// The character a key press stands for: the key value's Unicode code point
/// where it has one, otherwise the character whose code is the key value's
/// low byte.
pub open spec fn key_char(keyval: u32, unicode: Option<char>) -> char {
    match unicode {
        Some(c) => c,
        None => ((keyval & 0xFF) as u8) as char,
    }
}

/// Encodes `c` as UTF-8 into a fresh buffer of exactly the encoding's length.
pub fn encode_char(c: char) -> (bytes: Vec<u8>)
    ensures
        bytes@ == char_bytes(c),
        bytes@.len() == utf8_len(c),
        1 <= bytes@.len() <= 4,
{
    let v: u32 = c as u32;
    let mut bytes: Vec<u8> = Vec::new();
    if v <= 0x7F {
        bytes.push((v & 0x7F) as u8);
    } else if v <= 0x7FF {
        bytes.push(0xC0 | ((v >> 6) & 0x1F) as u8);
        bytes.push(0x80 | (v & 0x3F) as u8);
    } else if v <= 0xFFFF {
        bytes.push(0xE0 | ((v >> 12) & 0x0F) as u8);
        bytes.push(0x80 | ((v >> 6) & 0x3F) as u8);
        bytes.push(0x80 | (v & 0x3F) as u8);
    } else {
        bytes.push(0xF0 | ((v >> 18) & 0x7) as u8);
        bytes.push(0x80 | ((v >> 12) & 0x3F) as u8);
        bytes.push(0x80 | ((v >> 6) & 0x3F) as u8);
        bytes.push(0x80 | (v & 0x3F) as u8);
    }
    assert(bytes@ =~= char_bytes(c));
    bytes
}

/// Picks the character for a key press that the input method left alone.
pub fn keyval_char(keyval: u32, unicode: Option<char>) -> (c: char)
    ensures
        c == key_char(keyval, unicode),
{
    match unicode {
        Some(c) => c,
        None => {
            let low: u8 = (keyval & 0xFF) as u8;
            low as char
        },
    }
}

} // verus!
