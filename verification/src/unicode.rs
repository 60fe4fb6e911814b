//! The arithmetic of `\u` escapes: hex digits, surrogate pairs and the bytes
//! that a code point is written with.

use vstd::prelude::*;

verus! {

/// The value of each hex digit below 0x80, and 255 for every other byte.
pub const HEXTABLE: [u32; 128] = [
    255, 255, 255, 255, 255, 255, 255, 255, 255, 255, 255, 255, 255, 255, 255, 255,
    255, 255, 255, 255, 255, 255, 255, 255, 255, 255, 255, 255, 255, 255, 255, 255,
    255, 255, 255, 255, 255, 255, 255, 255, 255, 255, 255, 255, 255, 255, 255, 255,
    0, 1, 2, 3, 4, 5, 6, 7, 8, 9, 255, 255, 255, 255, 255, 255,
    255, 10, 11, 12, 13, 14, 15, 255, 255, 255, 255, 255, 255, 255, 255, 255,
    255, 255, 255, 255, 255, 255, 255, 255, 255, 255, 255, 255, 255, 255, 255, 255,
    255, 10, 11, 12, 13, 14, 15, 255, 255, 255, 255, 255, 255, 255, 255, 255,
    255, 255, 255, 255, 255, 255, 255, 255, 255, 255, 255, 255, 255, 255, 255, 255,
];

/// One of `0`-`9`, `A`-`F`, `a`-`f`.
pub open spec fn is_hex_digit(b: u8) -> bool {
    (0x30 <= b <= 0x39) || (0x41 <= b <= 0x46) || (0x61 <= b <= 0x66)
}

/// The value of a hex digit; 255 for any other byte.
pub open spec fn hex_value(b: u8) -> u32 {
    if 0x30 <= b <= 0x39 {
        (b - 0x30) as u32
    } else if 0x41 <= b <= 0x46 {
        (b - 0x41 + 10) as u32
    } else if 0x61 <= b <= 0x66 {
        (b - 0x61 + 10) as u32
    } else {
        255
    }
}

/// The number that four hex digits write, most significant first.
pub open spec fn hex4(b0: u8, b1: u8, b2: u8, b3: u8) -> u32 {
    (hex_value(b0) * 4096 + hex_value(b1) * 256 + hex_value(b2) * 16 + hex_value(b3)) as u32
}

/// A code unit that opens a surrogate pair.
pub open spec fn high_surrogate(uc: u32) -> bool {
    0xd800 <= uc <= 0xdbff
}

/// A code unit that closes a surrogate pair.
pub open spec fn low_surrogate(uc: u32) -> bool {
    0xdc00 <= uc <= 0xdfff
}

/// The code point that a surrogate pair stands for.
pub open spec fn surrogate_pair(high: u32, low: u32) -> u32 {
    (0x10000 + (high - 0xd800) * 0x400 + (low - 0xdc00)) as u32
}

/// The two-byte form `110xxxxx 10xxxxxx` of a value below 0x800.
pub open spec fn utf8_two(u: u32) -> Seq<u8> {
    seq![(0xc0 + u / 0x40) as u8, (0x80 + u % 0x40) as u8]
}

/// The three-byte form `1110xxxx 10xxxxxx 10xxxxxx` of a value below 0x10000.
pub open spec fn utf8_three(u: u32) -> Seq<u8> {
    seq![(0xe0 + u / 0x1000) as u8, (0x80 + (u / 0x40) % 0x40) as u8, (0x80 + u % 0x40) as u8]
}

/// The four-byte form `11110xxx 10xxxxxx 10xxxxxx 10xxxxxx` of a value below
/// 0x200000.
pub open spec fn utf8_four(u: u32) -> Seq<u8> {
    seq![
        (0xf0 + u / 0x40000) as u8,
        (0x80 + (u / 0x1000) % 0x40) as u8,
        (0x80 + (u / 0x40) % 0x40) as u8,
        (0x80 + u % 0x40) as u8,
    ]
}

/// Looks a byte below 0x80 up in the hex table.
pub fn hex_digit_value(b: u8) -> (r: u32)
    requires
        b < 0x80,
    ensures
        r == hex_value(b),
{
    HEXTABLE[b as usize]
}

/// Reads four hex digits as one number.
pub fn hex4_value(b0: u8, b1: u8, b2: u8, b3: u8) -> (r: u32)
    requires
        is_hex_digit(b0),
        is_hex_digit(b1),
        is_hex_digit(b2),
        is_hex_digit(b3),
    ensures
        r == hex4(b0, b1, b2, b3),
        r <= 0xffff,
{
    let h0: u32 = hex_digit_value(b0);
    let h1: u32 = hex_digit_value(b1);
    let h2: u32 = hex_digit_value(b2);
    let h3: u32 = hex_digit_value(b3);
    assert(h0 << 12 | h1 << 8 | h2 << 4 | h3 == h0 * 4096 + h1 * 256 + h2 * 16 + h3) by (bit_vector)
        requires
            h0 <= 15,
            h1 <= 15,
            h2 <= 15,
            h3 <= 15,
    ;
    h0 << 12 | h1 << 8 | h2 << 4 | h3
}

pub fn is_high_surrogate(uc: u32) -> (r: bool)
    ensures
        r == high_surrogate(uc),
{
    0xd800 <= uc && uc <= 0xdbff
}

pub fn is_low_surrogate(uc: u32) -> (r: bool)
    ensures
        r == low_surrogate(uc),
{
    0xdc00 <= uc && uc <= 0xdfff
}

/// Puts a surrogate pair together.
pub fn combine_surrogates(high: u32, low: u32) -> (r: u32)
    requires
        high_surrogate(high),
        low_surrogate(low),
    ensures
        r == surrogate_pair(high, low),
        0x10000 <= r <= 0x10ffff,
{
    assert(0x10000 + ((high & 0x3ff) << 10) + (low & 0x3ff) == 0x10000 + (high - 0xd800) * 0x400 + (
    low - 0xdc00)) by (bit_vector)
        requires
            0xd800 <= high <= 0xdbff,
            0xdc00 <= low <= 0xdfff,
    ;
    0x10000 + ((high & 0x3ff) << 10) + (low & 0x3ff)
}

/// Appends the two-byte form of `u`.
pub fn push_utf8_two(buffer: &mut Vec<u8>, u: u32)
    requires
        u < 0x800,
    ensures
        final(buffer)@ == old(buffer)@ + utf8_two(u),
{
    assert(((u >> 6) | 0xc0) == 0xc0 + u / 0x40 && ((u >> 6) | 0xc0) <= 0xff) by (bit_vector)
        requires
            u < 0x800,
    ;
    assert(((u & 0x3f) | 0x80) == 0x80 + u % 0x40 && ((u & 0x3f) | 0x80) <= 0xff) by (bit_vector);
    buffer.push(((u >> 6) | 0xc0) as u8);
    buffer.push(((u & 0x3f) | 0x80) as u8);
}

/// Appends the three-byte form of `u`.
pub fn push_utf8_three(buffer: &mut Vec<u8>, u: u32)
    requires
        u < 0x10000,
    ensures
        final(buffer)@ == old(buffer)@ + utf8_three(u),
{
    assert(((u >> 12) | 0xe0) == 0xe0 + u / 0x1000 && ((u >> 12) | 0xe0) <= 0xff) by (bit_vector)
        requires
            u < 0x10000,
    ;
    assert((((u >> 6) & 0x3f) | 0x80) == 0x80 + (u / 0x40) % 0x40 && (((u >> 6) & 0x3f) | 0x80)
        <= 0xff) by (bit_vector);
    assert(((u & 0x3f) | 0x80) == 0x80 + u % 0x40 && ((u & 0x3f) | 0x80) <= 0xff) by (bit_vector);
    buffer.push(((u >> 12) | 0xe0) as u8);
    buffer.push((((u >> 6) & 0x3f) | 0x80) as u8);
    buffer.push(((u & 0x3f) | 0x80) as u8);
}

/// Appends the four-byte form of `u`.
pub fn push_utf8_four(buffer: &mut Vec<u8>, u: u32)
    requires
        u < 0x200000,
    ensures
        final(buffer)@ == old(buffer)@ + utf8_four(u),
{
    assert(((u >> 18) | 0xf0) == 0xf0 + u / 0x40000 && ((u >> 18) | 0xf0) <= 0xff) by (bit_vector)
        requires
            u < 0x200000,
    ;
    assert((((u >> 12) & 0x3f) | 0x80) == 0x80 + (u / 0x1000) % 0x40 && (((u >> 12) & 0x3f) | 0x80)
        <= 0xff) by (bit_vector);
    assert((((u >> 6) & 0x3f) | 0x80) == 0x80 + (u / 0x40) % 0x40 && (((u >> 6) & 0x3f) | 0x80)
        <= 0xff) by (bit_vector);
    assert(((u & 0x3f) | 0x80) == 0x80 + u % 0x40 && ((u & 0x3f) | 0x80) <= 0xff) by (bit_vector);
    buffer.push(((u >> 18) | 0xf0) as u8);
    buffer.push((((u >> 12) & 0x3f) | 0x80) as u8);
    buffer.push((((u >> 6) & 0x3f) | 0x80) as u8);
    buffer.push(((u & 0x3f) | 0x80) as u8);
}

} // verus!
