//! The tempo multiplier and how the pipeline reads it.
//!
//! The multiplier is a single-precision number. It is kept as its IEEE 754
//! bit pattern, so that the three cases the pipeline tells apart (rejected,
//! leave the audio alone, transcode) are plain statements about an integer.

use vstd::prelude::*;

verus! {

/// Bit pattern of `1.0`.
pub const ONE_BITS: u32 = 0x3F80_0000;

/// Bit pattern of positive infinity; every larger magnitude is a NaN.
pub const INFINITY_BITS: u32 = 0x7F80_0000;

/// The sign bit.
pub const SIGN_BIT: u32 = 0x8000_0000;

/// The pattern without its sign bit.
pub open spec fn magnitude(bits: u32) -> int {
    if bits >= SIGN_BIT {
        bits - SIGN_BIT
    } else {
        bits as int
    }
}

/// Whether the pattern encodes a NaN.
pub open spec fn is_nan(bits: u32) -> bool {
    magnitude(bits) > INFINITY_BITS
}

/// Whether the number compares `<= 0.0`: either zero, or negative and not a
/// NaN (a NaN compares false with everything).
pub open spec fn is_zero_or_less(bits: u32) -> bool {
    magnitude(bits) == 0 || (bits >= SIGN_BIT && !is_nan(bits))
}

/// Whether the number compares `== 1.0`.
pub open spec fn is_one(bits: u32) -> bool {
    bits == ONE_BITS
}

/// How the pipeline treats a multiplier.
#[derive(Debug, Clone, Copy, PartialEq, Eq, Structural)]
pub enum SpeedClass {
    /// Zero or negative: the run is refused.
    Rejected,
    /// Exactly one: the transcode pass is skipped altogether.
    Unchanged,
    /// Anything else: every eligible file is transcoded.
    Transcode,
}

/// The class of the multiplier with the given bit pattern.
pub open spec fn class_of(bits: u32) -> SpeedClass {
    if is_zero_or_less(bits) {
        SpeedClass::Rejected
    } else if is_one(bits) {
        SpeedClass::Unchanged
    } else {
        SpeedClass::Transcode
    }
}

/// A tempo multiplier.
#[derive(Debug, Clone, Copy, PartialEq, Eq, Structural)]
pub struct Speed {
    pub bits: u32,
}

impl Speed {
    /// The multiplier whose IEEE 754 single-precision pattern is `bits`.
    pub fn from_bits(bits: u32) -> (speed: Speed)
        ensures
            speed.bits == bits,
    {
        Speed { bits }
    }

    /// The multiplier `1.0`, which leaves audio as it is.
    pub fn one() -> (speed: Speed)
        ensures
            speed.bits == ONE_BITS,
            class_of(speed.bits) == SpeedClass::Unchanged,
    {
        Speed { bits: ONE_BITS }
    }

    /// The bit pattern of the multiplier.
    pub fn to_bits(&self) -> (bits: u32)
        ensures
            bits == self.bits,
    {
        self.bits
    }

    /// Tells whether the multiplier is refused, leaves the audio alone, or
    /// asks for a transcode pass.
    pub fn classify(&self) -> (class: SpeedClass)
        ensures
            class == class_of(self.bits),
    {
        let bits = self.bits;
        let magnitude: u32 = if bits >= SIGN_BIT {
            bits - SIGN_BIT
        } else {
            bits
        };
        if magnitude == 0 || (bits >= SIGN_BIT && magnitude <= INFINITY_BITS) {
            SpeedClass::Rejected
        } else if bits == ONE_BITS {
            SpeedClass::Unchanged
        } else {
            SpeedClass::Transcode
        }
    }
}

/// A multiplier is refused exactly when it is zero or negative; among the
/// others only `1.0` skips the transcode pass.
pub proof fn classes_partition(bits: u32)
    ensures
        class_of(bits) == SpeedClass::Rejected <==> is_zero_or_less(bits),
        class_of(bits) == SpeedClass::Unchanged <==> is_one(bits),
        class_of(bits) == SpeedClass::Transcode <==> !is_zero_or_less(bits) && !is_one(bits),
{
}

} // verus!
