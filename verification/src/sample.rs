//! Real-valued samples, held as IEEE 754 binary64 bit patterns.
//!
//! The pipeline never computes with the encoded numbers; it moves them
//! around and, when clipping a harmonic, reads their sign. Holding the bit
//! pattern keeps every sample exactly as its producer made it.

use vstd::prelude::*;

verus! {

/// What a binary64 bit pattern encodes.
pub enum Datum {
    /// Not a number.
    Nan,
    /// An infinity.
    Infinite { negative: bool },
    /// The number `significand * 2^exponent`, negated when `negative`.
    /// A zero significand encodes zero, of either sign.
    Finite { negative: bool, significand: nat, exponent: int },
}

impl Datum {
    /// The encoded value is greater than zero. Neither zero is, and a NaN
    /// compares false with everything.
    pub open spec fn is_positive(self) -> bool {
        match self {
            Datum::Nan => false,
            Datum::Infinite { negative } => !negative,
            Datum::Finite { negative, significand, .. } => !negative && significand > 0,
        }
    }
}

/// Two to the 52nd power: the weight of the hidden significand bit.
pub const HIDDEN_BIT: u64 = 0x10_0000_0000_0000;

/// The sign bit of a pattern.
pub open spec fn sign_field(bits: u64) -> nat {
    (bits / 0x8000_0000_0000_0000) as nat
}

/// The eleven-bit biased exponent of a pattern.
pub open spec fn exponent_field(bits: u64) -> nat {
    ((bits / 0x10_0000_0000_0000) % 0x800) as nat
}

/// The fifty-two fraction bits of a pattern.
pub open spec fn fraction_field(bits: u64) -> nat {
    (bits % 0x10_0000_0000_0000) as nat
}

/// The datum that a binary64 bit pattern encodes: an all-ones exponent is an
/// infinity or a NaN, a zero exponent a subnormal number or zero, and any
/// other exponent a normal number with the hidden bit set.
pub open spec fn decode(bits: u64) -> Datum {
    let negative = sign_field(bits) == 1;
    let exponent = exponent_field(bits);
    let fraction = fraction_field(bits);
    if exponent == 0x7ff {
        if fraction == 0 {
            Datum::Infinite { negative }
        } else {
            Datum::Nan
        }
    } else if exponent == 0 {
        Datum::Finite { negative, significand: fraction, exponent: -1074 }
    } else {
        Datum::Finite {
            negative,
            significand: (HIDDEN_BIT + fraction) as nat,
            exponent: exponent - 1075,
        }
    }
}

/// One sample of a signal or of a spectrum.
#[derive(Clone, Copy, Debug, PartialEq, Eq, Structural)]
pub struct Sample {
    /// The binary64 bit pattern of the sample's value.
    pub bits: u64,
}

impl View for Sample {
    type V = Datum;

    open spec fn view(&self) -> Datum {
        decode(self.bits)
    }
}

impl Sample {
    /// Whether the sample's value is greater than zero.
    pub fn is_positive(&self) -> (b: bool)
        ensures
            b == self@.is_positive(),
    {
        0 < self.bits && self.bits <= 0x7ff0_0000_0000_0000
    }
}

} // verus!
