//! Arithmetic on 32-bit machine words: wrap-around, two's complement reading and
//! sign extension, each stated over mathematical integers.

use vstd::prelude::*;

verus! {

/// The 32-bit word that holds `x` modulo 2^32.
pub open spec fn wrap32(x: int) -> u32 {
    (x % 0x1_0000_0000) as u32
}

/// The integer that `value` stands for when its bit of weight `sign_weight` is the sign
/// bit of a two's complement number (`sign_weight` is `0x80` for a byte).
pub open spec fn sign_extend(value: u32, sign_weight: int) -> int {
    if value >= sign_weight {
        value - 2 * sign_weight
    } else {
        value as int
    }
}

/// The word read as a 32-bit two's complement number.
pub open spec fn signed(x: u32) -> int {
    sign_extend(x, 0x8000_0000)
}

/// The casts between `u32` and `i32` keep the bit pattern: the signed reading of a word is
/// its two's complement value, and a signed number goes back to the word that holds it
/// modulo 2^32.
pub proof fn lemma_reinterpret(x: u32, y: i32)
    ensures
        (x as i32) as int == signed(x),
        (y as u32) == wrap32(y as int),
        signed(y as u32) == y,
{
    assert((x as i32) as int == (if x >= 0x8000_0000u32 {
        x - 0x1_0000_0000
    } else {
        x as int
    })) by (bit_vector);
    assert((y as u32) as int == (if y < 0i32 {
        y + 0x1_0000_0000
    } else {
        y as int
    })) by (bit_vector);
}

/// Moving a field of 8, 12, 13, 16 or 21 bits to the top of the word and back down with
/// an arithmetic shift reads it as a two's complement number.
pub proof fn lemma_sign_extend_by_shifts(x: u32)
    ensures
        x < 0x100 ==> (((x << 24) as i32) >> 24) as int == sign_extend(x, 0x80),
        x < 0x1000 ==> (((x << 20) as i32) >> 20) as int == sign_extend(x, 0x800),
        x < 0x2000 ==> (((x << 19) as i32) >> 19) as int == sign_extend(x, 0x1000),
        x < 0x1_0000 ==> (((x << 16) as i32) >> 16) as int == sign_extend(x, 0x8000),
        x < 0x20_0000 ==> (((x << 11) as i32) >> 11) as int == sign_extend(x, 0x10_0000),
{
    assert(x < 0x100 ==> (((x << 24) as i32) >> 24) as int == (if x >= 0x80u32 {
        x - 0x100
    } else {
        x as int
    })) by (bit_vector);
    assert(x < 0x1000 ==> (((x << 20) as i32) >> 20) as int == (if x >= 0x800u32 {
        x - 0x1000
    } else {
        x as int
    })) by (bit_vector);
    assert(x < 0x2000 ==> (((x << 19) as i32) >> 19) as int == (if x >= 0x1000u32 {
        x - 0x2000
    } else {
        x as int
    })) by (bit_vector);
    assert(x < 0x1_0000 ==> (((x << 16) as i32) >> 16) as int == (if x >= 0x8000u32 {
        x - 0x1_0000
    } else {
        x as int
    })) by (bit_vector);
    assert(x < 0x20_0000 ==> (((x << 11) as i32) >> 11) as int == (if x >= 0x10_0000u32 {
        x - 0x20_0000
    } else {
        x as int
    })) by (bit_vector);
}

/// `base + offset` modulo 2^32, for a signed offset.
pub fn add_signed(base: u32, offset: i32) -> (sum: u32)
    ensures
        sum == wrap32(base + offset),
{
    base.wrapping_add_signed(offset)
}

/// `a + b` modulo 2^32.
pub fn add_wrapping(a: u32, b: u32) -> (sum: u32)
    ensures
        sum == wrap32(a + b),
{
    a.wrapping_add(b)
}

/// `a - b` modulo 2^32.
pub fn sub_wrapping(a: u32, b: u32) -> (difference: u32)
    ensures
        difference == wrap32(a - b),
{
    a.wrapping_sub(b)
}

/// Whether `a` is below `b` when both are read as two's complement numbers.
pub fn less_signed(a: u32, b: u32) -> (below: bool)
    ensures
        below == (signed(a) < signed(b)),
{
    proof {
        lemma_reinterpret(a, 0);
        lemma_reinterpret(b, 0);
    }
    (a as i32) < (b as i32)
}

} // verus!
