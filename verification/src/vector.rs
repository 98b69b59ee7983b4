use vstd::prelude::*;

verus! {

/// Whether the bit pattern of a single-precision number is that of a NaN.
pub open spec fn is_nan_bits(bits: u32) -> bool {
    (bits & 0x7FFF_FFFFu32) > 0x7F80_0000u32
}

/// Whether the bit pattern of a single-precision number is that of a zero,
/// of either sign.
pub open spec fn is_zero_bits(bits: u32) -> bool {
    (bits & 0x7FFF_FFFFu32) == 0
}

/// Whether two bit patterns stand for numbers that compare equal: neither
/// is a NaN, and they are the same pattern or both zeros.
pub open spec fn same_number(a: u32, b: u32) -> bool {
    &&& !is_nan_bits(a)
    &&& !is_nan_bits(b)
    &&& (a == b || (is_zero_bits(a) && is_zero_bits(b)))
}

/// Tells whether two bit patterns stand for numbers that compare equal.
pub fn numbers_equal(a: u32, b: u32) -> (eq: bool)
    ensures
        eq == same_number(a, b),
{
    let a_nan = (a & 0x7FFF_FFFFu32) > 0x7F80_0000u32;
    let b_nan = (b & 0x7FFF_FFFFu32) > 0x7F80_0000u32;
    let a_zero = (a & 0x7FFF_FFFFu32) == 0;
    let b_zero = (b & 0x7FFF_FFFFu32) == 0;
    !a_nan && !b_nan && (a == b || (a_zero && b_zero))
}

/// Two whole numbers of 32 bits.
#[derive(Clone, Copy, Debug, PartialEq, Eq, Structural)]
pub struct UVec2 {
    pub x: u32,
    pub y: u32,
}

/// Three single-precision numbers, each held as its IEEE 754 bit pattern.
/// The library moves such numbers and never computes with them.
#[derive(Clone, Copy, Debug, PartialEq, Eq, Structural)]
pub struct Vec3 {
    pub x: u32,
    pub y: u32,
    pub z: u32,
}

impl Vec3 {
    /// Whether the two vectors name the same point: their components
    /// compare equal as numbers.
    pub open spec fn same_point(&self, other: &Vec3) -> bool {
        &&& same_number(self.x, other.x)
        &&& same_number(self.y, other.y)
        &&& same_number(self.z, other.z)
    }

    /// The vector with the given bit patterns as components.
    pub fn new(x: u32, y: u32, z: u32) -> (v: Vec3)
        ensures
            v == (Vec3 { x, y, z }),
    {
        Vec3 { x, y, z }
    }

    /// Tells whether the two vectors name the same point.
    pub fn is_same_point(&self, other: &Vec3) -> (same: bool)
        ensures
            same == self.same_point(other),
    {
        numbers_equal(self.x, other.x) && numbers_equal(self.y, other.y) && numbers_equal(
            self.z,
            other.z,
        )
    }
}

} // verus!
