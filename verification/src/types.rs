//! Value types shared by the whole renderer.

use vstd::prelude::*;

verus! {

/// An IEEE-754 single-precision number, held by its bit pattern.
///
/// The renderer stores such numbers and hands them on to the GPU; it never
/// computes with them, so it keeps the 32 bits exactly as they were given.
pub type FloatBits = u32;

/// The bit pattern of `0.0`.
pub const FLOAT_ZERO: FloatBits = 0x0000_0000u32;

/// The bit pattern of `0.5`.
pub const FLOAT_HALF: FloatBits = 0x3F00_0000u32;

/// The bit pattern of `1.0`.
pub const FLOAT_ONE: FloatBits = 0x3F80_0000u32;

/// A colour as red, green, blue and alpha.
pub type FloatColor = [FloatBits; 4];

/// Byte `k` (0 is the least significant) of a 32-bit pattern.
pub open spec fn le_byte(bits: u32, k: int) -> u8 {
    ((bits >> ((8 * k) as u32)) & 0xff) as u8
}

fn le_byte_of(bits: u32, k: u32) -> (b: u8)
    requires
        k < 4,
    ensures
        b == le_byte(bits, k as int),
{
    assert(((bits >> (8 * k)) & 0xff) < 256) by (bit_vector);
    ((bits >> (8 * k)) & 0xff) as u8
}

/// Lays a colour out as sixteen bytes: red, green, blue, alpha, each as a
/// little-endian single-precision number.
pub fn to_rgbaf32(v: FloatColor) -> (bytes: [u8; 16])
    ensures
        forall|c: int, k: int|
            0 <= c < 4 && 0 <= k < 4 ==> #[trigger] bytes[4 * c + k] == le_byte(v[c], k),
{
    let r = v[0];
    let g = v[1];
    let b = v[2];
    let a = v[3];
    let bytes = [
        le_byte_of(r, 0), le_byte_of(r, 1), le_byte_of(r, 2), le_byte_of(r, 3),
        le_byte_of(g, 0), le_byte_of(g, 1), le_byte_of(g, 2), le_byte_of(g, 3),
        le_byte_of(b, 0), le_byte_of(b, 1), le_byte_of(b, 2), le_byte_of(b, 3),
        le_byte_of(a, 0), le_byte_of(a, 1), le_byte_of(a, 2), le_byte_of(a, 3),
    ];
    assert forall|c: int, k: int| 0 <= c < 4 && 0 <= k < 4 implies #[trigger] bytes[4 * c + k]
        == le_byte(v[c], k) by {
        if c == 0 {
        } else if c == 1 {
        } else if c == 2 {
        } else {
        }
    }
    bytes
}

} // verus!
