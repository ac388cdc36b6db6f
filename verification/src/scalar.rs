//! Single-precision values carried by their bit pattern.

use vstd::prelude::*;

verus! {

/// A single-precision number, held as the 32 bits of its encoding.
///
/// The host never computes with these values: it stores them and hands them
/// on, so the encoding is all it needs. Two scalars are equal when their
/// encodings are.
#[derive(Clone, Copy, Debug, PartialEq, Eq, Structural)]
pub struct Scalar {
    pub bits: u32,
}

/// Encoding of zero.
pub const ZERO_BITS: u32 = 0;

/// Encoding of one.
pub const ONE_BITS: u32 = 0x3f80_0000;

/// Encoding of the factor by which a wheel movement in lines is scaled
/// before it is reported to the input tracker: one tenth, rounded to
/// single precision.
pub const WHEEL_SCALE_BITS: u32 = 0x3dcc_cccd;

impl Scalar {
    /// The value whose encoding is `bits`.
    pub fn from_bits(bits: u32) -> (s: Scalar)
        ensures
            s.bits == bits,
    {
        Scalar { bits }
    }

    /// The encoding of this value.
    pub fn to_bits(self) -> (bits: u32)
        ensures
            bits == self.bits,
    {
        self.bits
    }

    /// Zero.
    pub fn zero() -> (s: Scalar)
        ensures
            s.bits == ZERO_BITS,
    {
        Scalar { bits: ZERO_BITS }
    }

    /// One.
    pub fn one() -> (s: Scalar)
        ensures
            s.bits == ONE_BITS,
    {
        Scalar { bits: ONE_BITS }
    }
}

/// Two scalars.
#[derive(Clone, Copy, Debug, PartialEq, Eq, Structural)]
pub struct Vec2 {
    pub x: Scalar,
    pub y: Scalar,
}

/// Three scalars.
#[derive(Clone, Copy, Debug, PartialEq, Eq, Structural)]
pub struct Vec3 {
    pub x: Scalar,
    pub y: Scalar,
    pub z: Scalar,
}

/// Four scalars: a position with its weight, or a colour with its alpha.
#[derive(Clone, Copy, Debug, PartialEq, Eq, Structural)]
pub struct Vec4 {
    pub x: Scalar,
    pub y: Scalar,
    pub z: Scalar,
    pub w: Scalar,
}

/// Black with full alpha.
pub open spec fn opaque_black() -> Vec4 {
    Vec4 {
        x: Scalar { bits: ZERO_BITS },
        y: Scalar { bits: ZERO_BITS },
        z: Scalar { bits: ZERO_BITS },
        w: Scalar { bits: ONE_BITS },
    }
}

} // verus!
