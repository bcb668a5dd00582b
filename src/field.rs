//! Single fields: a 24-bit unsigned integer in three bytes and a temperature
//! stored as one byte with a bias of fifty, both least significant byte first.

use vstd::prelude::*;

verus! {

/// The largest value that a 24-bit field can hold.
pub const U24_MAX: u32 = 0xFF_FFFF;

/// The offset added to a temperature before it is stored in one byte.
pub const TEMP_BIAS: i16 = 50;

/// The lowest temperature that one byte can carry.
pub const TEMP_MIN: i16 = -50;

/// The highest temperature that one byte can carry.
pub const TEMP_MAX: i16 = 205;

/// The little-endian encoding of `v` in three bytes.
pub open spec fn u24_bytes(v: nat) -> Seq<u8> {
    seq![(v % 256) as u8, ((v / 256) % 256) as u8, ((v / 65536) % 256) as u8]
}

/// The value of three bytes read least significant first.
pub open spec fn u24_value(b0: u8, b1: u8, b2: u8) -> nat {
    (b0 + 256 * b1 + 65536 * b2) as nat
}

/// Whether a temperature lies in the range that one byte can carry.
pub open spec fn temp_in_range(t: i16) -> bool {
    TEMP_MIN <= t <= TEMP_MAX
}

/// The wire byte of a temperature in range.
pub open spec fn temp_byte(t: i16) -> u8 {
    (t + 50) as u8
}

/// The temperature that a wire byte stands for.
pub open spec fn temp_value(b: u8) -> i16 {
    (b - 50) as i16
}

/// Splits a 24-bit value into three bytes, least significant first.
pub fn encode_u24(value: u32) -> (r: [u8; 3])
    requires
        value <= U24_MAX,
    ensures
        r@ == u24_bytes(value as nat),
        u24_value(r[0], r[1], r[2]) == value,
{
    let b0 = (value % 256) as u8;
    let b1 = ((value / 256) % 256) as u8;
    let b2 = ((value / 65536) % 256) as u8;
    let r = [b0, b1, b2];
    proof {
        assert(value == value % 256 + 256 * ((value / 256) % 256) + 65536 * ((value / 65536) % 256)) by (nonlinear_arith)
            requires value <= 0xFF_FFFF;
        assert(r@[0] == b0 && r@[1] == b1 && r@[2] == b2);
        assert(r@ =~= u24_bytes(value as nat));
    }
    r
}

/// Joins three bytes, least significant first, into a 24-bit value.
pub fn decode_u24(bytes: [u8; 3]) -> (r: u32)
    ensures
        r == u24_value(bytes[0], bytes[1], bytes[2]),
        r <= U24_MAX,
{
    bytes[0] as u32 + (bytes[1] as u32) * 256 + (bytes[2] as u32) * 65536
}

/// Stores a temperature in range as one byte, adding the bias.
pub fn encode_temp(logical: i16) -> (r: u8)
    requires
        temp_in_range(logical),
    ensures
        r == temp_byte(logical),
        r == logical + 50,
{
    (logical + TEMP_BIAS) as u8
}

/// Reads a temperature from its wire byte, taking the bias away.
pub fn decode_temp(byte: u8) -> (r: i16)
    ensures
        r == temp_value(byte),
        r == byte - 50,
        temp_in_range(r),
{
    byte as i16 - TEMP_BIAS
}

} // verus!
