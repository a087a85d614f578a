//! A triple of signed 16-bit axis values.

use vstd::prelude::*;

verus! {

/// XYZ triple of raw angular-rate counts.
#[derive(Debug, Copy, Clone, PartialEq, Eq, Structural)]
pub struct I16x3 {
    /// X component
    pub x: i16,
    /// Y component
    pub y: i16,
    /// Z component
    pub z: i16,
}

impl I16x3 {
    /// Creates a new instance of the [`I16x3`] struct from its components.
    pub fn new(x: i16, y: i16, z: i16) -> (r: Self)
        ensures
            r == (I16x3 { x, y, z }),
    {
        Self { x, y, z }
    }
}

/// The signed 16-bit axis value that a low and a high wire byte assemble
/// into: the high byte contributes the upper eight bits, the low byte the
/// lower eight, and the result is read as two's complement.
pub open spec fn spec_axis_value(lo: u8, hi: u8) -> i16 {
    (((hi as u16) << 8) | (lo as u16)) as i16
}

/// Assembles a signed 16-bit axis value from its two wire bytes, low byte
/// first.
pub fn axis_value(lo: u8, hi: u8) -> (r: i16)
    ensures
        r == spec_axis_value(lo, hi),
{
    ((hi as u16) << 8 | (lo as u16)) as i16
}

} // verus!
