//! Conversions between 16-bit two's complement words and signed integers.
use vstd::prelude::*;

verus! {

/// The signed value of a 16-bit two's complement word.
pub open spec fn signed_value(v: u16) -> int {
    if v > 0x7fff {
        v as int - 0x10000
    } else {
        v as int
    }
}

/// The signed value of the word `v`.
pub fn decode_2complement(v: u16) -> (r: i32)
    ensures
        r as int == signed_value(v),
{
    if v > 0x7fff {
        (v as i32) - 0x10000
    } else {
        v as i32
    }
}

/// The 16-bit two's complement word of `v`: `v` modulo 2^16.
pub fn encode_2complement(v: i32) -> (r: u16)
    ensures
        r as int == v as int % 0x10000,
{
    // 2^31 is a multiple of 2^16, so shifting into the unsigned range keeps
    // the residue.
    let shifted: u32 = (v as i64 + 0x8000_0000) as u32;
    assert(shifted as int == v as int + 0x8000_0000);
    assert((v as int + 0x8000_0000) % 0x10000 == v as int % 0x10000);
    (shifted % 0x10000) as u16
}

/// `v` brought into the 16-bit signed range, as 16-bit arithmetic wraps it:
/// the one value in -2^15 .. 2^15 that is congruent to `v` modulo 2^16.
pub fn wrap_2complement(v: i32) -> (r: i32)
    ensures
        -0x8000 <= r < 0x8000,
        r as int % 0x10000 == v as int % 0x10000,
        r as int == signed_value((v as int % 0x10000) as u16),
{
    decode_2complement(encode_2complement(v))
}

} // verus!
