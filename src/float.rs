//! A double-precision number held as its IEEE-754 bit pattern.
//!
//! The library copies measured quantities verbatim and compares
//! temperatures; both are done on the bits, so no floating-point
//! arithmetic takes place here.
use vstd::prelude::*;

verus! {

/// The sign bit of a double.
pub const SIGN_BIT: u64 = 0x8000_0000_0000_0000;

/// The bit pattern of positive infinity: the largest magnitude that is
/// not a NaN.
pub const INFINITY_BITS: u64 = 0x7FF0_0000_0000_0000;

/// Whether the sign bit is set.
pub open spec fn sign_of(bits: u64) -> bool {
    bits >= SIGN_BIT
}

/// The bits below the sign bit, read as an unsigned integer. For
/// non-NaN doubles this grows with the absolute value.
pub open spec fn magnitude_of(bits: u64) -> int {
    if sign_of(bits) {
        bits - SIGN_BIT
    } else {
        bits as int
    }
}

/// Whether the pattern is a NaN: all exponent bits set, fraction not zero.
pub open spec fn nan_of(bits: u64) -> bool {
    magnitude_of(bits) > INFINITY_BITS
}

/// An integer that orders non-NaN doubles as their values do; both zeros
/// map to zero.
pub open spec fn order_key(bits: u64) -> int {
    if sign_of(bits) {
        -magnitude_of(bits)
    } else {
        magnitude_of(bits)
    }
}

/// IEEE-754 `<=`: false where either side is a NaN.
pub open spec fn le_bits(x: u64, y: u64) -> bool {
    !nan_of(x) && !nan_of(y) && order_key(x) <= order_key(y)
}

/// A double, as its 64-bit IEEE-754 pattern. `==` compares patterns: it
/// holds of two values exactly when they are the same double, bit for bit.
#[derive(Clone, Copy, Debug, PartialEq, Eq, Structural)]
pub struct Float64 {
    pub bits: u64,
}

impl Float64 {
    pub fn from_bits(bits: u64) -> (r: Float64)
        ensures
            r.bits == bits,
    {
        Float64 { bits }
    }

    pub fn to_bits(&self) -> (r: u64)
        ensures
            r == self.bits,
    {
        self.bits
    }

    /// Whether this is a NaN.
    pub fn is_nan(&self) -> (r: bool)
        ensures
            r == nan_of(self.bits),
    {
        let m: u64 = if self.bits >= SIGN_BIT {
            self.bits - SIGN_BIT
        } else {
            self.bits
        };
        m > INFINITY_BITS
    }

    /// `self <= other` as doubles compare.
    pub fn le(&self, other: &Float64) -> (r: bool)
        ensures
            r == le_bits(self.bits, other.bits),
    {
        if self.is_nan() || other.is_nan() {
            return false;
        }
        let x_neg = self.bits >= SIGN_BIT;
        let y_neg = other.bits >= SIGN_BIT;
        let xm: u64 = if x_neg { self.bits - SIGN_BIT } else { self.bits };
        let ym: u64 = if y_neg { other.bits - SIGN_BIT } else { other.bits };
        if !x_neg && !y_neg {
            xm <= ym
        } else if x_neg && !y_neg {
            true
        } else if !x_neg && y_neg {
            xm == 0 && ym == 0
        } else {
            ym <= xm
        }
    }
}

} // verus!
