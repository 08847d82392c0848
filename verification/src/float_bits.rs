//! Single-precision floating-point values held as their IEEE-754 bit patterns.
//!
//! Depth pixels, depth limits and the exposure, gain and gamma of a frame are
//! binary32 numbers. They are carried here as the 32 bits that encode them,
//! and the few comparisons the binding needs are defined on those bits.

use vstd::prelude::*;

verus! {

/// The bit pattern of positive infinity; every larger magnitude is a NaN.
pub const INFINITY_BITS: u32 = 0x7f80_0000;

/// The sign bit of a binary32 number.
pub const SIGN_BIT: u32 = 0x8000_0000;

/// The bits of `bits` without the sign bit.
pub open spec fn magnitude(bits: u32) -> int {
    if bits >= SIGN_BIT {
        bits - SIGN_BIT
    } else {
        bits as int
    }
}

/// Whether `bits` encodes a NaN.
pub open spec fn is_nan(bits: u32) -> bool {
    magnitude(bits) > INFINITY_BITS
}

/// An integer that orders the non-NaN bit patterns as their numbers are
/// ordered: the magnitude, negated under a set sign bit. Both zeros get 0.
pub open spec fn order_key(bits: u32) -> int {
    if bits >= SIGN_BIT {
        -magnitude(bits)
    } else {
        magnitude(bits)
    }
}

/// The comparison `a < b` of the two encoded numbers: false when either is a
/// NaN.
pub open spec fn less_than(a: u32, b: u32) -> bool {
    !is_nan(a) && !is_nan(b) && order_key(a) < order_key(b)
}

/// Whether the encoded number is greater than zero (and so not a NaN).
pub open spec fn is_positive(bits: u32) -> bool {
    0 < bits <= INFINITY_BITS
}

/// A binary32 number, held as its bit pattern.
#[derive(Clone, Copy, Debug, PartialEq, Eq, Structural)]
pub struct FloatBits {
    pub bits: u32,
}

impl FloatBits {
    /// Wraps a bit pattern, as `to_bits` of the number gives it.
    pub fn from_bits(bits: u32) -> (f: FloatBits)
        ensures
            f.bits == bits,
    {
        FloatBits { bits }
    }

    /// The bit pattern, as `from_bits` of the number takes it.
    pub fn to_bits(&self) -> (bits: u32)
        ensures
            bits == self.bits,
    {
        self.bits
    }

    /// Assembles the number from four bytes in little-endian order.
    pub open spec fn from_le_bytes_spec(b0: u8, b1: u8, b2: u8, b3: u8) -> FloatBits {
        FloatBits { bits: (b0 + 256 * b1 + 65536 * b2 + 16777216 * b3) as u32 }
    }

    /// Assembles the number from four bytes in little-endian order.
    pub fn from_le_bytes(b0: u8, b1: u8, b2: u8, b3: u8) -> (f: FloatBits)
        ensures
            f == Self::from_le_bytes_spec(b0, b1, b2, b3),
            f.bits == b0 + 256 * b1 + 65536 * b2 + 16777216 * b3,
    {
        let bits: u32 = (b0 as u32) + 256 * (b1 as u32) + 65536 * (b2 as u32) + 16777216 * (
        b3 as u32);
        FloatBits { bits }
    }

    /// Whether the number is a NaN.
    pub fn is_nan(&self) -> (r: bool)
        ensures
            r == is_nan(self.bits),
    {
        if self.bits >= SIGN_BIT {
            self.bits - SIGN_BIT > INFINITY_BITS
        } else {
            self.bits > INFINITY_BITS
        }
    }

    /// Whether the number is greater than zero.
    pub fn is_positive(&self) -> (r: bool)
        ensures
            r == is_positive(self.bits),
            r == less_than(0, self.bits),
    {
        0 < self.bits && self.bits <= INFINITY_BITS
    }

    /// Whether `self < other` as numbers; false when either is a NaN.
    pub fn less_than(&self, other: &FloatBits) -> (r: bool)
        ensures
            r == less_than(self.bits, other.bits),
    {
        if self.is_nan() || other.is_nan() {
            return false;
        }
        let a_neg: bool = self.bits >= SIGN_BIT;
        let b_neg: bool = other.bits >= SIGN_BIT;
        if a_neg {
            let a_mag: u32 = self.bits - SIGN_BIT;
            if b_neg {
                let b_mag: u32 = other.bits - SIGN_BIT;
                a_mag > b_mag
            } else {
                a_mag > 0 || other.bits > 0
            }
        } else {
            if b_neg {
                false
            } else {
                self.bits < other.bits
            }
        }
    }
}

/// `less_than` is a strict order on the bit patterns: irreflexive, asymmetric
/// and transitive.
pub proof fn lemma_less_than_is_strict_order(a: u32, b: u32, c: u32)
    ensures
        !less_than(a, a),
        less_than(a, b) ==> !less_than(b, a),
        less_than(a, b) && less_than(b, c) ==> less_than(a, c),
{
}

} // verus!
