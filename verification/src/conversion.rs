//! Unscaled sample decoder: raw 8/12/14-bit two's-complement register
//! values, sign-extended to `i16`.

use vstd::prelude::*;
use crate::types::UnscaledMeasurement;

verus! {

/// A byte read as an 8-bit two's-complement number.
pub open spec fn sign_extended_8(v: u8) -> int {
    if v < 128 {
        v as int
    } else {
        v as int - 256
    }
}

/// The low 12 bits of a word read as a 12-bit two's-complement number.
pub open spec fn sign_extended_12(v: u16) -> int {
    let low = v as int % 4096;
    if low < 2048 {
        low
    } else {
        low - 4096
    }
}

/// The low 14 bits of a word read as a 14-bit two's-complement number.
pub open spec fn sign_extended_14(v: u16) -> int {
    let low = v as int % 16384;
    if low < 8192 {
        low
    } else {
        low - 16384
    }
}

fn decode_axis_8(v: u8) -> (r: i16)
    ensures
        r == sign_extended_8(v),
{
    if v < 128 {
        v as i16
    } else {
        (v as i16) - 256
    }
}

fn decode_axis_12(v: u16) -> (r: i16)
    ensures
        r == sign_extended_12(v),
{
    let low: u16 = v & 0x0FFF;
    proof {
        assert(low == v % 4096) by (bit_vector)
            requires
                low == (v & 0x0FFF),
        ;
    }
    if low < 2048 {
        low as i16
    } else {
        (low as i16) - 4096
    }
}

fn decode_axis_14(v: u16) -> (r: i16)
    ensures
        r == sign_extended_14(v),
{
    let low: u16 = v & 0x3FFF;
    proof {
        assert(low == v % 16384) by (bit_vector)
            requires
                low == (v & 0x3FFF),
        ;
    }
    if low < 8192 {
        low as i16
    } else {
        (low as i16) - 16384
    }
}

/// Decode three 8-bit axis samples.
pub fn convert_8bit(x: u8, y: u8, z: u8) -> (m: UnscaledMeasurement)
    ensures
        m.x == sign_extended_8(x),
        m.y == sign_extended_8(y),
        m.z == sign_extended_8(z),
{
    UnscaledMeasurement { x: decode_axis_8(x), y: decode_axis_8(y), z: decode_axis_8(z) }
}

/// Decode three 12-bit axis samples held in the low bits of 16-bit words;
/// the upper four bits of each word are ignored.
pub fn convert_12bit(x: u16, y: u16, z: u16) -> (m: UnscaledMeasurement)
    ensures
        m.x == sign_extended_12(x),
        m.y == sign_extended_12(y),
        m.z == sign_extended_12(z),
{
    UnscaledMeasurement { x: decode_axis_12(x), y: decode_axis_12(y), z: decode_axis_12(z) }
}

/// Decode three 14-bit axis samples held in the low bits of 16-bit words;
/// the upper two bits of each word are ignored.
pub fn convert_14bit(x: u16, y: u16, z: u16) -> (m: UnscaledMeasurement)
    ensures
        m.x == sign_extended_14(x),
        m.y == sign_extended_14(y),
        m.z == sign_extended_14(z),
{
    UnscaledMeasurement { x: decode_axis_14(x), y: decode_axis_14(y), z: decode_axis_14(z) }
}

} // verus!
