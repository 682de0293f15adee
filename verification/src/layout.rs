//! How scalars lie in the eight payload bytes: little-endian from the first
//! byte, signed numbers in two's complement. A payload is held as the `u64`
//! that those eight bytes spell.

use vstd::prelude::*;

verus! {

/// The first byte of the payload.
pub open spec fn low8(bits: u64) -> u8 {
    (bits % 0x100) as u8
}

/// The first two bytes of the payload.
pub open spec fn low16(bits: u64) -> u16 {
    (bits % 0x1_0000) as u16
}

/// The first four bytes of the payload.
pub open spec fn low32(bits: u64) -> u32 {
    (bits % 0x1_0000_0000) as u32
}

/// The signed number that a byte spells.
pub open spec fn signed8(b: u8) -> i8 {
    if b < 0x80 {
        b as i8
    } else {
        (b - 0x100) as i8
    }
}

/// The signed number that two bytes spell.
pub open spec fn signed16(b: u16) -> i16 {
    if b < 0x8000 {
        b as i16
    } else {
        (b - 0x1_0000) as i16
    }
}

/// The signed number that four bytes spell.
pub open spec fn signed32(b: u32) -> i32 {
    if b < 0x8000_0000 {
        b as i32
    } else {
        (b - 0x1_0000_0000) as i32
    }
}

/// The signed number that eight bytes spell.
pub open spec fn signed64(b: u64) -> i64 {
    if b < 0x8000_0000_0000_0000 {
        b as i64
    } else {
        (b - 0x1_0000_0000_0000_0000) as i64
    }
}

/// The byte that spells a signed number.
pub open spec fn unsigned8(v: i8) -> u8 {
    if v >= 0 {
        v as u8
    } else {
        (v + 0x100) as u8
    }
}

/// The two bytes that spell a signed number.
pub open spec fn unsigned16(v: i16) -> u16 {
    if v >= 0 {
        v as u16
    } else {
        (v + 0x1_0000) as u16
    }
}

/// The four bytes that spell a signed number.
pub open spec fn unsigned32(v: i32) -> u32 {
    if v >= 0 {
        v as u32
    } else {
        (v + 0x1_0000_0000) as u32
    }
}

/// The eight bytes that spell a signed number.
pub open spec fn unsigned64(v: i64) -> u64 {
    if v >= 0 {
        v as u64
    } else {
        (v + 0x1_0000_0000_0000_0000) as u64
    }
}

/// The payload of a 16-bit boolean: all ones in two bytes for true, zero for false.
pub open spec fn bool_bits(b: bool) -> u64 {
    if b {
        0xffff
    } else {
        0
    }
}

/// What a 16-bit boolean payload means: anything but zero is true.
pub open spec fn bits_bool(bits: u64) -> bool {
    low16(bits) != 0
}

pub fn take8(bits: u64) -> (b: u8)
    ensures
        b == low8(bits),
{
    (bits % 0x100) as u8
}

pub fn take16(bits: u64) -> (b: u16)
    ensures
        b == low16(bits),
{
    (bits % 0x1_0000) as u16
}

pub fn take32(bits: u64) -> (b: u32)
    ensures
        b == low32(bits),
{
    (bits % 0x1_0000_0000) as u32
}

pub fn to_signed8(b: u8) -> (v: i8)
    ensures
        v == signed8(b),
{
    if b < 0x80 {
        b as i8
    } else {
        (b as i16 - 0x100) as i8
    }
}

pub fn to_signed16(b: u16) -> (v: i16)
    ensures
        v == signed16(b),
{
    if b < 0x8000 {
        b as i16
    } else {
        (b as i32 - 0x1_0000) as i16
    }
}

pub fn to_signed32(b: u32) -> (v: i32)
    ensures
        v == signed32(b),
{
    if b < 0x8000_0000 {
        b as i32
    } else {
        (b as i64 - 0x1_0000_0000) as i32
    }
}

pub fn to_signed64(b: u64) -> (v: i64)
    ensures
        v == signed64(b),
{
    if b < 0x8000_0000_0000_0000 {
        b as i64
    } else {
        (b as i128 - 0x1_0000_0000_0000_0000) as i64
    }
}

pub fn to_unsigned8(v: i8) -> (b: u8)
    ensures
        b == unsigned8(v),
{
    if v >= 0 {
        v as u8
    } else {
        (v as i16 + 0x100) as u8
    }
}

pub fn to_unsigned16(v: i16) -> (b: u16)
    ensures
        b == unsigned16(v),
{
    if v >= 0 {
        v as u16
    } else {
        (v as i32 + 0x1_0000) as u16
    }
}

pub fn to_unsigned32(v: i32) -> (b: u32)
    ensures
        b == unsigned32(v),
{
    if v >= 0 {
        v as u32
    } else {
        (v as i64 + 0x1_0000_0000) as u32
    }
}

pub fn to_unsigned64(v: i64) -> (b: u64)
    ensures
        b == unsigned64(v),
{
    if v >= 0 {
        v as u64
    } else {
        (v as i128 + 0x1_0000_0000_0000_0000) as u64
    }
}

pub fn to_bool_bits(b: bool) -> (bits: u64)
    ensures
        bits == bool_bits(b),
{
    if b {
        0xffff
    } else {
        0
    }
}

pub fn from_bool_bits(bits: u64) -> (b: bool)
    ensures
        b == bits_bool(bits),
{
    take16(bits) != 0
}

/// A signed number is read back from the bytes that spell it, at every width.
pub proof fn lemma_signed_round_trip(a: i8, b: i16, c: i32, d: i64)
    ensures
        signed8(unsigned8(a)) == a,
        signed16(unsigned16(b)) == b,
        signed32(unsigned32(c)) == c,
        signed64(unsigned64(d)) == d,
{
}

/// Bytes are found again in the signed number that they spell, at every width.
pub proof fn lemma_unsigned_round_trip(a: u8, b: u16, c: u32, d: u64)
    ensures
        unsigned8(signed8(a)) == a,
        unsigned16(signed16(b)) == b,
        unsigned32(signed32(c)) == c,
        unsigned64(signed64(d)) == d,
{
}

/// A scalar that was widened to the payload is found in its first bytes.
pub proof fn lemma_low_of_widened(a: u8, b: u16, c: u32)
    ensures
        low8(a as u64) == a,
        low16(b as u64) == b,
        low32(c as u64) == c,
{
}

/// The bytes that spell a signed number are what the cast of the language
/// gives, and so is the signed number that bytes spell; the first bytes of a
/// payload are what its truncation gives.
pub proof fn lemma_layout_is_cast(a: i8, b: i16, c: i32, d: i64, w: u64)
    ensures
        unsigned8(a) == a as u8,
        unsigned16(b) == b as u16,
        unsigned32(c) == c as u32,
        unsigned64(d) == d as u64,
        signed8(low8(w)) == (w as u8) as i8,
        signed16(low16(w)) == (w as u16) as i16,
        signed32(low32(w)) == (w as u32) as i32,
        signed64(w) == w as i64,
        low8(w) == w as u8,
        low16(w) == w as u16,
        low32(w) == w as u32,
{
    assert(unsigned8(a) == a as u8) by (bit_vector);
    assert(unsigned16(b) == b as u16) by (bit_vector);
    assert(unsigned32(c) == c as u32) by (bit_vector);
    assert(unsigned64(d) == d as u64) by (bit_vector);
    assert(signed8(low8(w)) == (w as u8) as i8) by (bit_vector);
    assert(signed16(low16(w)) == (w as u16) as i16) by (bit_vector);
    assert(signed32(low32(w)) == (w as u32) as i32) by (bit_vector);
    assert(signed64(w) == w as i64) by (bit_vector);
    assert(low8(w) == w as u8) by (bit_vector);
    assert(low16(w) == w as u16) by (bit_vector);
    assert(low32(w) == w as u32) by (bit_vector);
}

/// A boolean is read back from its payload.
pub proof fn lemma_bool_round_trip(b: bool)
    ensures
        bits_bool(bool_bits(b)) == b,
{
}

} // verus!
