//! Character classes and the UTF-8 framing of the byte stream.
//!
//! Each byte of the input falls into one of 34 classes, whose order is the
//! order of the columns of the two tables of the machine. The classifier also
//! keeps count of the continuation bytes that a multi-byte sequence still owes.

use vstd::prelude::*;

verus! {

/// Class of a space.
pub const C_SPACE: u8 = 0;

/// Class of a line feed.
pub const C_NL: u8 = 1;

/// Class of a tab or a carriage return.
pub const C_WHITE: u8 = 2;

/// Class of `{`.
pub const C_LCURB: u8 = 3;

/// Class of `}`.
pub const C_RCURB: u8 = 4;

/// Class of `[`.
pub const C_LSQRB: u8 = 5;

/// Class of `]`.
pub const C_RSQRB: u8 = 6;

/// Class of `:`.
pub const C_COLON: u8 = 7;

/// Class of `,`.
pub const C_COMMA: u8 = 8;

/// Class of `"`.
pub const C_QUOTE: u8 = 9;

/// Class of a backslash.
pub const C_BACKS: u8 = 10;

/// Class of `/`.
pub const C_SLASH: u8 = 11;

/// Class of `+`.
pub const C_PLUS: u8 = 12;

/// Class of `-`.
pub const C_MINUS: u8 = 13;

/// Class of `.`.
pub const C_DOT: u8 = 14;

/// Class of `0`.
pub const C_ZERO: u8 = 15;

/// Class of a digit from `1` to `9`.
pub const C_DIGIT: u8 = 16;

/// Class of `a`.
pub const C_LOW_A: u8 = 17;

/// Class of `b`.
pub const C_LOW_B: u8 = 18;

/// Class of `c`.
pub const C_LOW_C: u8 = 19;

/// Class of `d`.
pub const C_LOW_D: u8 = 20;

/// Class of `e`.
pub const C_LOW_E: u8 = 21;

/// Class of `f`.
pub const C_LOW_F: u8 = 22;

/// Class of `l`.
pub const C_LOW_L: u8 = 23;

/// Class of `n`.
pub const C_LOW_N: u8 = 24;

/// Class of `r`.
pub const C_LOW_R: u8 = 25;

/// Class of `s`.
pub const C_LOW_S: u8 = 26;

/// Class of `t`.
pub const C_LOW_T: u8 = 27;

/// Class of `u`.
pub const C_LOW_U: u8 = 28;

/// Class of one of `A`, `B`, `C`, `D`, `F`.
pub const C_ABCDF: u8 = 29;

/// Class of `E`.
pub const C_E: u8 = 30;

/// Class of any other byte that may stand in a string.
pub const C_OTHER: u8 = 31;

/// Class of `*`.
pub const C_STAR: u8 = 32;

/// Class of `#`.
pub const C_HASH: u8 = 33;

/// Not a class: a control byte that may not stand anywhere.
pub const C_ERROR: u8 = 0xfe;

/// Marks a byte that cannot start a sequence (in the header table) or cannot
/// continue one (in the continuation table).
pub const XX: u8 = 0xff;

/// The class of each byte below 0x80.
pub const CHARACTER_CLASS: [u8; 128] = [
    C_ERROR, C_ERROR, C_ERROR, C_ERROR, // 0x00
    C_ERROR, C_ERROR, C_ERROR, C_ERROR, // 0x04
    C_ERROR, C_WHITE, C_NL, C_ERROR, // 0x08
    C_ERROR, C_WHITE, C_ERROR, C_ERROR, // 0x0c
    C_ERROR, C_ERROR, C_ERROR, C_ERROR, // 0x10
    C_ERROR, C_ERROR, C_ERROR, C_ERROR, // 0x14
    C_ERROR, C_ERROR, C_ERROR, C_ERROR, // 0x18
    C_ERROR, C_ERROR, C_ERROR, C_ERROR, // 0x1c
    C_SPACE, C_OTHER, C_QUOTE, C_HASH, // 0x20
    C_OTHER, C_OTHER, C_OTHER, C_OTHER, // 0x24
    C_OTHER, C_OTHER, C_STAR, C_PLUS, // 0x28
    C_COMMA, C_MINUS, C_DOT, C_SLASH, // 0x2c
    C_ZERO, C_DIGIT, C_DIGIT, C_DIGIT, // 0x30
    C_DIGIT, C_DIGIT, C_DIGIT, C_DIGIT, // 0x34
    C_DIGIT, C_DIGIT, C_COLON, C_OTHER, // 0x38
    C_OTHER, C_OTHER, C_OTHER, C_OTHER, // 0x3c
    C_OTHER, C_ABCDF, C_ABCDF, C_ABCDF, // 0x40
    C_ABCDF, C_E, C_ABCDF, C_OTHER, // 0x44
    C_OTHER, C_OTHER, C_OTHER, C_OTHER, // 0x48
    C_OTHER, C_OTHER, C_OTHER, C_OTHER, // 0x4c
    C_OTHER, C_OTHER, C_OTHER, C_OTHER, // 0x50
    C_OTHER, C_OTHER, C_OTHER, C_OTHER, // 0x54
    C_OTHER, C_OTHER, C_OTHER, C_LSQRB, // 0x58
    C_BACKS, C_RSQRB, C_OTHER, C_OTHER, // 0x5c
    C_OTHER, C_LOW_A, C_LOW_B, C_LOW_C, // 0x60
    C_LOW_D, C_LOW_E, C_LOW_F, C_OTHER, // 0x64
    C_OTHER, C_OTHER, C_OTHER, C_OTHER, // 0x68
    C_LOW_L, C_OTHER, C_LOW_N, C_OTHER, // 0x6c
    C_OTHER, C_OTHER, C_LOW_R, C_LOW_S, // 0x70
    C_LOW_T, C_LOW_U, C_OTHER, C_OTHER, // 0x74
    C_OTHER, C_OTHER, C_OTHER, C_LCURB, // 0x78
    C_OTHER, C_RCURB, C_OTHER, C_OTHER, // 0x7c
];

/// For each byte, the number of continuation bytes that follow it when it
/// starts a sequence.
pub const UTF8_HEADER_TABLE: [u8; 256] = [
    /* 00 */ 0, 0, 0, 0, 0, 0, 0, 0, 0, 0, 0, 0, 0, 0, 0, 0,
    /* 10 */ 0, 0, 0, 0, 0, 0, 0, 0, 0, 0, 0, 0, 0, 0, 0, 0,
    /* 20 */ 0, 0, 0, 0, 0, 0, 0, 0, 0, 0, 0, 0, 0, 0, 0, 0,
    /* 30 */ 0, 0, 0, 0, 0, 0, 0, 0, 0, 0, 0, 0, 0, 0, 0, 0,
    /* 40 */ 0, 0, 0, 0, 0, 0, 0, 0, 0, 0, 0, 0, 0, 0, 0, 0,
    /* 50 */ 0, 0, 0, 0, 0, 0, 0, 0, 0, 0, 0, 0, 0, 0, 0, 0,
    /* 60 */ 0, 0, 0, 0, 0, 0, 0, 0, 0, 0, 0, 0, 0, 0, 0, 0,
    /* 70 */ 0, 0, 0, 0, 0, 0, 0, 0, 0, 0, 0, 0, 0, 0, 0, 0,
    /* 80 */ XX, XX, XX, XX, XX, XX, XX, XX, XX, XX, XX, XX, XX, XX, XX, XX,
    /* 90 */ XX, XX, XX, XX, XX, XX, XX, XX, XX, XX, XX, XX, XX, XX, XX, XX,
    /* a0 */ XX, XX, XX, XX, XX, XX, XX, XX, XX, XX, XX, XX, XX, XX, XX, XX,
    /* b0 */ XX, XX, XX, XX, XX, XX, XX, XX, XX, XX, XX, XX, XX, XX, XX, XX,
    /* c0 */ 1, 1, 1, 1, 1, 1, 1, 1, 1, 1, 1, 1, 1, 1, 1, 1,
    /* d0 */ 1, 1, 1, 1, 1, 1, 1, 1, 1, 1, 1, 1, 1, 1, 1, 1,
    /* e0 */ 2, 2, 2, 2, 2, 2, 2, 2, 2, 2, 2, 2, 2, 2, 2, 2,
    /* f0 */ 3, 3, 3, 3, 3, 3, 3, 3, 4, 4, 4, 4, 5, 5, XX, XX,
];

/// For each byte, 0 when it can continue a sequence.
pub const UTF8_CONTINUATION_TABLE: [u8; 256] = [
    /* 00 */ XX, XX, XX, XX, XX, XX, XX, XX, XX, XX, XX, XX, XX, XX, XX, XX,
    /* 10 */ XX, XX, XX, XX, XX, XX, XX, XX, XX, XX, XX, XX, XX, XX, XX, XX,
    /* 20 */ XX, XX, XX, XX, XX, XX, XX, XX, XX, XX, XX, XX, XX, XX, XX, XX,
    /* 30 */ XX, XX, XX, XX, XX, XX, XX, XX, XX, XX, XX, XX, XX, XX, XX, XX,
    /* 40 */ XX, XX, XX, XX, XX, XX, XX, XX, XX, XX, XX, XX, XX, XX, XX, XX,
    /* 50 */ XX, XX, XX, XX, XX, XX, XX, XX, XX, XX, XX, XX, XX, XX, XX, XX,
    /* 60 */ XX, XX, XX, XX, XX, XX, XX, XX, XX, XX, XX, XX, XX, XX, XX, XX,
    /* 70 */ XX, XX, XX, XX, XX, XX, XX, XX, XX, XX, XX, XX, XX, XX, XX, XX,
    /* 80 */ 0, 0, 0, 0, 0, 0, 0, 0, 0, 0, 0, 0, 0, 0, 0, 0,
    /* 90 */ 0, 0, 0, 0, 0, 0, 0, 0, 0, 0, 0, 0, 0, 0, 0, 0,
    /* a0 */ 0, 0, 0, 0, 0, 0, 0, 0, 0, 0, 0, 0, 0, 0, 0, 0,
    /* b0 */ 0, 0, 0, 0, 0, 0, 0, 0, 0, 0, 0, 0, 0, 0, 0, 0,
    /* c0 */ XX, XX, XX, XX, XX, XX, XX, XX, XX, XX, XX, XX, XX, XX, XX, XX,
    /* d0 */ XX, XX, XX, XX, XX, XX, XX, XX, XX, XX, XX, XX, XX, XX, XX, XX,
    /* e0 */ XX, XX, XX, XX, XX, XX, XX, XX, XX, XX, XX, XX, XX, XX, XX, XX,
    /* f0 */ XX, XX, XX, XX, XX, XX, XX, XX, XX, XX, XX, XX, XX, XX, XX, XX,
];

/// A continuation byte: the two high bits are `10`.
pub open spec fn is_continuation(ch: u8) -> bool {
    0x80 <= ch <= 0xbf
}

/// How many continuation bytes follow `ch` when it starts a sequence, or
/// [`XX`] when it cannot start one. Five- and six-byte forms are let through.
pub open spec fn utf8_header(ch: u8) -> u8 {
    if ch <= 0x7f {
        0
    } else if ch <= 0xbf {
        XX
    } else if ch <= 0xdf {
        1
    } else if ch <= 0xef {
        2
    } else if ch <= 0xf7 {
        3
    } else if ch <= 0xfb {
        4
    } else if ch <= 0xfd {
        5
    } else {
        XX
    }
}

/// The class of a byte below 0x80.
pub open spec fn class_of_ascii(ch: u8) -> u8 {
    if ch == 0x20 {
        C_SPACE
    } else if ch == 0x0a {
        C_NL
    } else if ch == 0x09 || ch == 0x0d {
        C_WHITE
    } else if ch < 0x20 {
        C_ERROR
    } else if ch == 0x7b {
        C_LCURB
    } else if ch == 0x7d {
        C_RCURB
    } else if ch == 0x5b {
        C_LSQRB
    } else if ch == 0x5d {
        C_RSQRB
    } else if ch == 0x3a {
        C_COLON
    } else if ch == 0x2c {
        C_COMMA
    } else if ch == 0x22 {
        C_QUOTE
    } else if ch == 0x5c {
        C_BACKS
    } else if ch == 0x2f {
        C_SLASH
    } else if ch == 0x2b {
        C_PLUS
    } else if ch == 0x2d {
        C_MINUS
    } else if ch == 0x2e {
        C_DOT
    } else if ch == 0x30 {
        C_ZERO
    } else if 0x31 <= ch <= 0x39 {
        C_DIGIT
    } else if ch == 0x61 {
        C_LOW_A
    } else if ch == 0x62 {
        C_LOW_B
    } else if ch == 0x63 {
        C_LOW_C
    } else if ch == 0x64 {
        C_LOW_D
    } else if ch == 0x65 {
        C_LOW_E
    } else if ch == 0x66 {
        C_LOW_F
    } else if ch == 0x6c {
        C_LOW_L
    } else if ch == 0x6e {
        C_LOW_N
    } else if ch == 0x72 {
        C_LOW_R
    } else if ch == 0x73 {
        C_LOW_S
    } else if ch == 0x74 {
        C_LOW_T
    } else if ch == 0x75 {
        C_LOW_U
    } else if ch == 0x45 {
        C_E
    } else if 0x41 <= ch <= 0x46 {
        C_ABCDF
    } else if ch == 0x2a {
        C_STAR
    } else if ch == 0x23 {
        C_HASH
    } else {
        C_OTHER
    }
}

/// What the classifier makes of `ch` when `left` continuation bytes are still
/// owed: the class of the byte and the new count, or the error.
pub open spec fn classify(left: u8, ch: u8) -> Result<(u8, u8), crate::types::JError> {
    if left > 0 {
        if is_continuation(ch) {
            Ok((C_OTHER, (left - 1) as u8))
        } else {
            Err(crate::types::JError::UTF8)
        }
    } else if utf8_header(ch) == XX {
        Err(crate::types::JError::UTF8)
    } else if utf8_header(ch) > 0 {
        Ok((C_OTHER, utf8_header(ch)))
    } else if class_of_ascii(ch) == C_ERROR {
        Err(crate::types::JError::BAD_CHAR)
    } else {
        Ok((class_of_ascii(ch), 0))
    }
}

/// Looks `ch` up in the header table.
pub fn utf8_header_of(ch: u8) -> (r: u8)
    ensures
        r == utf8_header(ch),
{
    UTF8_HEADER_TABLE[ch as usize]
}

/// Looks `ch` up in the continuation table.
pub fn is_utf8_continuation(ch: u8) -> (r: bool)
    ensures
        r == is_continuation(ch),
{
    UTF8_CONTINUATION_TABLE[ch as usize] == 0
}

/// Looks a byte below 0x80 up in the class table.
pub fn character_class(ch: u8) -> (r: u8)
    requires
        ch < 0x80,
    ensures
        r == class_of_ascii(ch),
        r < 34 || r == C_ERROR,
{
    CHARACTER_CLASS[ch as usize]
}

} // verus!
