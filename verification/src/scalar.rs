use vstd::prelude::*;

verus! {

/// A coefficient carried as the raw bit pattern of an IEEE-754
/// double-precision value.
///
/// The verified core never performs floating-point arithmetic: it stores,
/// compares and hands out coefficients bit-exactly, and leaves decoding and
/// numeric evaluation to the surrounding application. Two scalars are equal
/// exactly when their bit patterns are.
#[derive(Clone, Copy, Debug, PartialEq, Eq, Structural)]
pub struct Scalar {
    /// The raw IEEE-754 double-precision bit pattern.
    pub bits: u64,
}

impl Scalar {
    /// Wraps a raw bit pattern.
    pub fn from_bits(bits: u64) -> (r: Scalar)
        ensures
            r.bits == bits,
    {
        Scalar { bits }
    }

    /// The raw bit pattern.
    pub fn to_bits(&self) -> (r: u64)
        ensures
            r == self.bits,
    {
        self.bits
    }
}

/// Bits of the double 0.
pub const BITS_0: u64 = 0x0000_0000_0000_0000;

/// Bits of the double 1/10.
pub const BITS_0_1: u64 = 0x3FB9_9999_9999_999A;

/// Bits of the double 97/100.
pub const BITS_0_97: u64 = 0x3FEF_0A3D_70A3_D70A;

/// Bits of the double 1.
pub const BITS_1: u64 = 0x3FF0_0000_0000_0000;

/// Bits of the double 7/5.
pub const BITS_1_4: u64 = 0x3FF6_6666_6666_6666;

/// Bits of the double 3/2.
pub const BITS_1_5: u64 = 0x3FF8_0000_0000_0000;

/// Bits of the double 19/10.
pub const BITS_1_9: u64 = 0x3FFE_6666_6666_6666;

/// Bits of the double 2.
pub const BITS_2: u64 = 0x4000_0000_0000_0000;

/// Bits of the double 5.
pub const BITS_5: u64 = 0x4014_0000_0000_0000;

/// Bits of the double 10.
pub const BITS_10: u64 = 0x4024_0000_0000_0000;

/// Bits of the double 20.
pub const BITS_20: u64 = 0x4034_0000_0000_0000;

/// Bits of the double 100.
pub const BITS_100: u64 = 0x4059_0000_0000_0000;

/// Bits of the double 300.
pub const BITS_300: u64 = 0x4072_C000_0000_0000;

/// Bits of the double 500.
pub const BITS_500: u64 = 0x407F_4000_0000_0000;

/// Bits of the double 600.
pub const BITS_600: u64 = 0x4082_C000_0000_0000;

/// Bits of the double 1000.
pub const BITS_1000: u64 = 0x408F_4000_0000_0000;

/// Bits of the double 1100.
pub const BITS_1100: u64 = 0x4091_3000_0000_0000;

/// Bits of the double 2000.
pub const BITS_2000: u64 = 0x409F_4000_0000_0000;

/// Bits of the double 100000.
pub const BITS_100000: u64 = 0x40F8_6A00_0000_0000;

/// Bits of the double -1/10.
pub const BITS_NEG_0_1: u64 = 0xBFB9_9999_9999_999A;

/// Bits of the double -1.
pub const BITS_NEG_1: u64 = 0xBFF0_0000_0000_0000;

/// Bits of the double -2.
pub const BITS_NEG_2: u64 = 0xC000_0000_0000_0000;

/// Bits of the double -5.
pub const BITS_NEG_5: u64 = 0xC014_0000_0000_0000;

/// Bits of the double -10.
pub const BITS_NEG_10: u64 = 0xC024_0000_0000_0000;

/// Bits of the double -20.
pub const BITS_NEG_20: u64 = 0xC034_0000_0000_0000;

/// Bits of the double -50.
pub const BITS_NEG_50: u64 = 0xC049_0000_0000_0000;

/// Bits of the double -100.
pub const BITS_NEG_100: u64 = 0xC059_0000_0000_0000;

/// Bits of the double -500.
pub const BITS_NEG_500: u64 = 0xC07F_4000_0000_0000;

} // verus!
