//! Real-valued quantities, carried by their bit pattern.
//!
//! Coordinates, angles, distances and speeds arrive as IEEE 754 double
//! precision numbers. The library never does arithmetic on them: it moves
//! them, compares them bit for bit, reads their sign and replaces them by
//! a few fixed values. A `Scalar` therefore holds the 64 bits of the number
//! and nothing else; whoever does the arithmetic converts at the boundary.

use vstd::prelude::*;

verus! {

/// The bit that holds the sign of a double precision number.
pub const SIGN_BIT: u64 = 0x8000_0000_0000_0000;

/// Bit pattern of the number 0.
pub const ZERO_BITS: u64 = 0;

/// Bit pattern of the number 100.
pub const HUNDRED_BITS: u64 = 0x4059_0000_0000_0000;

/// Bit pattern of the number 45.
pub const DEG_45_BITS: u64 = 0x4046_8000_0000_0000;

/// Bit pattern of the number -45.
pub const DEG_MINUS_45_BITS: u64 = 0xc046_8000_0000_0000;

/// Bit pattern of the number 135.
pub const DEG_135_BITS: u64 = 0x4060_e000_0000_0000;

/// Bit pattern of the number 225.
pub const DEG_225_BITS: u64 = 0x406c_2000_0000_0000;

/// Bit pattern of the number 315.
pub const DEG_315_BITS: u64 = 0x4073_b000_0000_0000;

/// A double precision number, held as its 64 bits.
///
/// Two scalars are equal when their bits are: `-0` differs from `0`, and a
/// NaN equals itself.
#[derive(Clone, Copy, Debug, PartialEq, Eq, Structural)]
pub struct Scalar {
    pub bits: u64,
}

impl Scalar {
    /// The scalar with the given bits.
    pub open spec fn of(bits: u64) -> Scalar {
        Scalar { bits }
    }

    /// The number 0 (positive zero).
    pub open spec fn zero() -> Scalar {
        Scalar { bits: ZERO_BITS }
    }

    /// Whether the sign bit is clear: true of positive numbers, of `+0`
    /// and of NaNs with a positive sign.
    pub open spec fn sign_positive(self) -> bool {
        self.bits < SIGN_BIT
    }

    /// The same number with the sign bit cleared.
    pub open spec fn magnitude(self) -> Scalar {
        if self.bits < SIGN_BIT {
            self
        } else {
            Scalar { bits: (self.bits - SIGN_BIT) as u64 }
        }
    }

    /// The scalar with the given bits.
    pub fn from_bits(bits: u64) -> (s: Scalar)
        ensures
            s == Scalar::of(bits),
    {
        Scalar { bits }
    }

    /// The bits of the scalar.
    pub fn to_bits(self) -> (bits: u64)
        ensures
            bits == self.bits,
    {
        self.bits
    }

    /// Whether the sign bit is clear.
    pub fn is_sign_positive(self) -> (positive: bool)
        ensures
            positive == self.sign_positive(),
    {
        self.bits < SIGN_BIT
    }

    /// The same number with the sign bit cleared.
    pub fn abs(self) -> (m: Scalar)
        ensures
            m == self.magnitude(),
            m.sign_positive(),
    {
        if self.bits < SIGN_BIT {
            self
        } else {
            Scalar { bits: self.bits - SIGN_BIT }
        }
    }
}

} // verus!
