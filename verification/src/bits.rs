//! Byte codec: fixed-size conversions between four-byte tuples and 32-bit
//! integers, reading the bytes in big-endian order.

use vstd::prelude::*;

verus! {

/// The 32-bit value encoded by four bytes in big-endian order: the first
/// byte of the tuple is the most significant byte of the result.
pub open spec fn spec_u8_to_u32(bits: (u8, u8, u8, u8)) -> u32 {
    ((bits.0 as u32) << 24) | ((bits.1 as u32) << 16) | ((bits.2 as u32) << 8) | (bits.3 as u32)
}

/// The four bytes of a 32-bit value in big-endian order: the first byte of
/// the tuple is the most significant byte of the argument.
pub open spec fn spec_u32_to_u8(num: u32) -> (u8, u8, u8, u8) {
    (
        ((num >> 24) & 0xFF) as u8,
        ((num >> 16) & 0xFF) as u8,
        ((num >> 8) & 0xFF) as u8,
        (num & 0xFF) as u8,
    )
}

/// The signed 32-bit value encoded by four signed bytes: defined by bit
/// reinterpretation of the unsigned conversion, not algorithmically distinct.
pub open spec fn spec_i8_to_i32(bits: (i8, i8, i8, i8)) -> i32 {
    spec_u8_to_u32((bits.0 as u8, bits.1 as u8, bits.2 as u8, bits.3 as u8)) as i32
}

/// The four signed bytes of a signed 32-bit value: bit reinterpretation of
/// the unsigned conversion.
pub open spec fn spec_i32_to_i8(num: i32) -> (i8, i8, i8, i8) {
    (
        spec_u32_to_u8(num as u32).0 as i8,
        spec_u32_to_u8(num as u32).1 as i8,
        spec_u32_to_u8(num as u32).2 as i8,
        spec_u32_to_u8(num as u32).3 as i8,
    )
}

/// Packs four bytes into a `u32`, first byte most significant.
pub fn u8_to_u32(bits: (u8, u8, u8, u8)) -> (num: u32)
    ensures
        num == spec_u8_to_u32(bits),
{
    ((bits.0 as u32) << 24) | ((bits.1 as u32) << 16) | ((bits.2 as u32) << 8) | (bits.3 as u32)
}

/// Splits a `u32` into four bytes, most significant byte first.
pub fn u32_to_u8(num: u32) -> (bits: (u8, u8, u8, u8))
    ensures
        bits == spec_u32_to_u8(num),
{
    (
        ((num >> 24) & 0xFF) as u8,
        ((num >> 16) & 0xFF) as u8,
        ((num >> 8) & 0xFF) as u8,
        (num & 0xFF) as u8,
    )
}

/// Packs four signed bytes into an `i32` by bit reinterpretation.
pub fn i8_to_i32(bits: (i8, i8, i8, i8)) -> (num: i32)
    ensures
        num == spec_i8_to_i32(bits),
{
    u8_to_u32((bits.0 as u8, bits.1 as u8, bits.2 as u8, bits.3 as u8)) as i32
}

/// Splits an `i32` into four signed bytes by bit reinterpretation.
pub fn i32_to_i8(num: i32) -> (bits: (i8, i8, i8, i8))
    ensures
        bits == spec_i32_to_i8(num),
{
    let result = u32_to_u8(num as u32);
    (result.0 as i8, result.1 as i8, result.2 as i8, result.3 as i8)
}

/// Round trip through the byte split: packing the four bytes of any `u32`
/// yields that value back.
pub proof fn lemma_u32_byte_round_trip(num: u32)
    ensures
        spec_u8_to_u32(spec_u32_to_u8(num)) == num,
{
    assert((((((num >> 24) & 0xFF) as u8) as u32) << 24) | (((((num >> 16) & 0xFF) as u8) as u32)
        << 16) | (((((num >> 8) & 0xFF) as u8) as u32) << 8) | (((num & 0xFF) as u8) as u32)
        == num) by (bit_vector);
}

/// Round trip through the byte pack: splitting the packed value of any four
/// bytes yields those bytes back.
pub proof fn lemma_u8_word_round_trip(bits: (u8, u8, u8, u8))
    ensures
        spec_u32_to_u8(spec_u8_to_u32(bits)) == bits,
{
    let b0 = bits.0;
    let b1 = bits.1;
    let b2 = bits.2;
    let b3 = bits.3;
    let num = spec_u8_to_u32(bits);
    assert(num == ((b0 as u32) << 24) | ((b1 as u32) << 16) | ((b2 as u32) << 8) | (b3 as u32));
    assert((((((b0 as u32) << 24) | ((b1 as u32) << 16) | ((b2 as u32) << 8) | (b3 as u32)) >> 24)
        & 0xFF) as u8 == b0) by (bit_vector);
    assert((((((b0 as u32) << 24) | ((b1 as u32) << 16) | ((b2 as u32) << 8) | (b3 as u32)) >> 16)
        & 0xFF) as u8 == b1) by (bit_vector);
    assert((((((b0 as u32) << 24) | ((b1 as u32) << 16) | ((b2 as u32) << 8) | (b3 as u32)) >> 8)
        & 0xFF) as u8 == b2) by (bit_vector);
    assert(((((b0 as u32) << 24) | ((b1 as u32) << 16) | ((b2 as u32) << 8) | (b3 as u32)) & 0xFF)
        as u8 == b3) by (bit_vector);
}

/// Round trip for the signed variant: packing the four signed bytes of any
/// `i32` yields that value back.
pub proof fn lemma_i32_byte_round_trip(num: i32)
    ensures
        spec_i8_to_i32(spec_i32_to_i8(num)) == num,
{
    let u = num as u32;
    lemma_u32_byte_round_trip(u);
    assert(((spec_u32_to_u8(u).0 as i8) as u8) == spec_u32_to_u8(u).0) by {
        assert(((((u >> 24) & 0xFF) as u8) as i8) as u8 == ((u >> 24) & 0xFF) as u8)
            by (bit_vector);
    }
    assert(((spec_u32_to_u8(u).1 as i8) as u8) == spec_u32_to_u8(u).1) by {
        assert(((((u >> 16) & 0xFF) as u8) as i8) as u8 == ((u >> 16) & 0xFF) as u8)
            by (bit_vector);
    }
    assert(((spec_u32_to_u8(u).2 as i8) as u8) == spec_u32_to_u8(u).2) by {
        assert(((((u >> 8) & 0xFF) as u8) as i8) as u8 == ((u >> 8) & 0xFF) as u8) by (bit_vector);
    }
    assert(((spec_u32_to_u8(u).3 as i8) as u8) == spec_u32_to_u8(u).3) by {
        assert((((u & 0xFF) as u8) as i8) as u8 == (u & 0xFF) as u8) by (bit_vector);
    }
    assert((num as u32) as i32 == num) by (bit_vector);
}

/// Round trip for the signed variant in the other direction: splitting the
/// packed value of any four signed bytes yields those bytes back.
pub proof fn lemma_i8_word_round_trip(bits: (i8, i8, i8, i8))
    ensures
        spec_i32_to_i8(spec_i8_to_i32(bits)) == bits,
{
    let b0 = bits.0;
    let b1 = bits.1;
    let b2 = bits.2;
    let b3 = bits.3;
    let ub = (b0 as u8, b1 as u8, b2 as u8, b3 as u8);
    lemma_u8_word_round_trip(ub);
    let num = spec_u8_to_u32(ub);
    assert((num as i32) as u32 == num) by (bit_vector);
    assert(((b0 as u8) as i8) == b0) by (bit_vector);
    assert(((b1 as u8) as i8) == b1) by (bit_vector);
    assert(((b2 as u8) as i8) == b2) by (bit_vector);
    assert(((b3 as u8) as i8) == b3) by (bit_vector);
}

} // verus!
