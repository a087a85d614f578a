//! The slice of the device's register map that the driver reads or writes:
//! register addresses, the bit fields the driver decodes, and the
//! configuration settings it encodes.
//!
//! Each register is one byte on the wire. The bit layouts below follow the
//! device's register map: in `CTRL_REG1` the data rate sits in bits 7 to 6,
//! the bandwidth in bits 5 to 4, power-up in bit 3 and the axis enables in
//! bits 2 to 0; in `CTRL_REG4` the full-scale selection sits in bits 5 to 4;
//! `STATUS_REG` carries the per-axis data-available flags in bits 2 to 0 and
//! the per-axis overrun flags in bits 6 to 4.

use vstd::prelude::*;

verus! {

/// Address of the `WHO_AM_I` identification register.
pub const WHO_AM_I: u8 = 0x0f;

/// Address of control register 1 (data rate, bandwidth, power, axis enables).
pub const CTRL_REG1: u8 = 0x20;

/// Address of control register 2 (high-pass filter configuration).
pub const CTRL_REG2: u8 = 0x21;

/// Address of control register 3 (interrupt configuration).
pub const CTRL_REG3: u8 = 0x22;

/// Address of control register 4 (block update, endianness, full scale).
pub const CTRL_REG4: u8 = 0x23;

/// Address of control register 5 (boot, FIFO, high-pass enable).
pub const CTRL_REG5: u8 = 0x24;

/// Address of the temperature register.
pub const OUT_TEMP: u8 = 0x26;

/// Address of the status register.
pub const STATUS_REG: u8 = 0x27;

/// Address of the low byte of the X-axis reading; the following five
/// addresses hold X high, Y low, Y high, Z low and Z high, in that order.
pub const OUT_X_L: u8 = 0x28;

/// The identification value that the `WHO_AM_I` register always holds.
pub const DEVICE_ID: u8 = 0xd4;

/// Gyroscope output data rate selection.
#[derive(Debug, Clone, Copy, PartialEq, Eq, Structural)]
pub enum OutputDataRate {
    /// 95 Hz (`0b00`)
    Hz95,
    /// 190 Hz (`0b01`)
    Hz190,
    /// 380 Hz (`0b10`)
    Hz380,
    /// 760 Hz (`0b11`)
    Hz760,
}

/// Low-pass filter bandwidth selection. The noise-equivalent bandwidth in
/// hertz that a setting yields depends on the output data rate; see
/// [`crate::characteristics`].
#[derive(Debug, Clone, Copy, PartialEq, Eq, Structural)]
pub enum Bandwidth {
    /// The narrowest filter bandwidth (`0b00`).
    Narrowest,
    /// A narrow filter bandwidth (`0b01`).
    Narrow,
    /// A medium filter bandwidth (`0b10`).
    Medium,
    /// A wide filter bandwidth (`0b11`).
    Wide,
}

/// Full-scale selection: the maximum measurable angular rate.
#[derive(Debug, Clone, Copy, PartialEq, Eq, Structural)]
pub enum FullScale {
    /// 250 degrees/second (`0b00`); 8.75 mdps/digit resolution.
    Dps250,
    /// 500 degrees/second (`0b01`); 17.5 mdps/digit resolution.
    Dps500,
    /// 2000 degrees/second (`0b10`); 70 mdps/digit resolution.
    Dps2000,
    /// The alternate encoding (`0b11`) of the 2000 degrees/second scale.
    Dps2000Alt,
}

/// The two-bit wire encoding of an output data rate setting.
pub open spec fn spec_odr_bits(odr: OutputDataRate) -> u8 {
    match odr {
        OutputDataRate::Hz95 => 0,
        OutputDataRate::Hz190 => 1,
        OutputDataRate::Hz380 => 2,
        OutputDataRate::Hz760 => 3,
    }
}

/// The output data rate selected by a `CTRL_REG1` byte (bits 7 to 6).
pub open spec fn spec_odr_of_ctrl1(byte: u8) -> OutputDataRate {
    match (byte >> 6) & 0x03 {
        0 => OutputDataRate::Hz95,
        1 => OutputDataRate::Hz190,
        2 => OutputDataRate::Hz380,
        _ => OutputDataRate::Hz760,
    }
}

/// The two-bit wire encoding of a bandwidth setting.
pub open spec fn spec_bandwidth_bits(bw: Bandwidth) -> u8 {
    match bw {
        Bandwidth::Narrowest => 0,
        Bandwidth::Narrow => 1,
        Bandwidth::Medium => 2,
        Bandwidth::Wide => 3,
    }
}

/// The bandwidth selected by a `CTRL_REG1` byte (bits 5 to 4).
pub open spec fn spec_bandwidth_of_ctrl1(byte: u8) -> Bandwidth {
    match (byte >> 4) & 0x03 {
        0 => Bandwidth::Narrowest,
        1 => Bandwidth::Narrow,
        2 => Bandwidth::Medium,
        _ => Bandwidth::Wide,
    }
}

/// The full-scale setting selected by a `CTRL_REG4` byte (bits 5 to 4).
pub open spec fn spec_full_scale_of_ctrl4(byte: u8) -> FullScale {
    match (byte >> 4) & 0x03 {
        0 => FullScale::Dps250,
        1 => FullScale::Dps500,
        2 => FullScale::Dps2000,
        _ => FullScale::Dps2000Alt,
    }
}

/// Returns the two-bit wire encoding of an output data rate setting.
pub fn odr_bits(odr: OutputDataRate) -> (r: u8)
    ensures
        r == spec_odr_bits(odr),
{
    match odr {
        OutputDataRate::Hz95 => 0,
        OutputDataRate::Hz190 => 1,
        OutputDataRate::Hz380 => 2,
        OutputDataRate::Hz760 => 3,
    }
}

/// Returns the output data rate selected by a `CTRL_REG1` byte.
pub fn odr_of_ctrl1(byte: u8) -> (r: OutputDataRate)
    ensures
        r == spec_odr_of_ctrl1(byte),
{
    match (byte >> 6) & 0x03 {
        0 => OutputDataRate::Hz95,
        1 => OutputDataRate::Hz190,
        2 => OutputDataRate::Hz380,
        _ => OutputDataRate::Hz760,
    }
}

/// Returns the two-bit wire encoding of a bandwidth setting.
pub fn bandwidth_bits(bw: Bandwidth) -> (r: u8)
    ensures
        r == spec_bandwidth_bits(bw),
{
    match bw {
        Bandwidth::Narrowest => 0,
        Bandwidth::Narrow => 1,
        Bandwidth::Medium => 2,
        Bandwidth::Wide => 3,
    }
}

/// Returns the bandwidth selected by a `CTRL_REG1` byte.
pub fn bandwidth_of_ctrl1(byte: u8) -> (r: Bandwidth)
    ensures
        r == spec_bandwidth_of_ctrl1(byte),
{
    match (byte >> 4) & 0x03 {
        0 => Bandwidth::Narrowest,
        1 => Bandwidth::Narrow,
        2 => Bandwidth::Medium,
        _ => Bandwidth::Wide,
    }
}

/// Returns the full-scale setting selected by a `CTRL_REG4` byte.
pub fn full_scale_of_ctrl4(byte: u8) -> (r: FullScale)
    ensures
        r == spec_full_scale_of_ctrl4(byte),
{
    match (byte >> 4) & 0x03 {
        0 => FullScale::Dps250,
        1 => FullScale::Dps500,
        2 => FullScale::Dps2000,
        _ => FullScale::Dps2000Alt,
    }
}

/// One decoded status register byte.
///
/// Bit 0 reports new X-axis data, bits 1 and 2 the same for Y and Z; bits 4
/// to 6 report that an axis value was overwritten before it was read.
#[derive(Debug, Clone, Copy, PartialEq, Eq, Structural)]
pub struct StatusFlags {
    /// The raw status register byte.
    pub bits: u8,
}

impl StatusFlags {
    /// Whether new X-axis data is available (bit 0).
    pub open spec fn spec_x_da(self) -> bool {
        self.bits & 0x01 != 0
    }

    /// Whether new Y-axis data is available (bit 1).
    pub open spec fn spec_y_da(self) -> bool {
        self.bits & 0x02 != 0
    }

    /// Whether new Z-axis data is available (bit 2).
    pub open spec fn spec_z_da(self) -> bool {
        self.bits & 0x04 != 0
    }

    /// Whether X-axis data was overwritten before it was read (bit 4).
    pub open spec fn spec_x_overrun(self) -> bool {
        self.bits & 0x10 != 0
    }

    /// Whether Y-axis data was overwritten before it was read (bit 5).
    pub open spec fn spec_y_overrun(self) -> bool {
        self.bits & 0x20 != 0
    }

    /// Whether Z-axis data was overwritten before it was read (bit 6).
    pub open spec fn spec_z_overrun(self) -> bool {
        self.bits & 0x40 != 0
    }

    /// Wraps a raw status register byte.
    pub fn from_bits(bits: u8) -> (r: StatusFlags)
        ensures
            r.bits == bits,
    {
        StatusFlags { bits }
    }

    /// Whether new X-axis data is available.
    pub fn x_da(&self) -> (r: bool)
        ensures
            r == self.spec_x_da(),
    {
        self.bits & 0x01 != 0
    }

    /// Whether new Y-axis data is available.
    pub fn y_da(&self) -> (r: bool)
        ensures
            r == self.spec_y_da(),
    {
        self.bits & 0x02 != 0
    }

    /// Whether new Z-axis data is available.
    pub fn z_da(&self) -> (r: bool)
        ensures
            r == self.spec_z_da(),
    {
        self.bits & 0x04 != 0
    }

    /// Whether X-axis data was overwritten before it was read.
    pub fn x_overrun(&self) -> (r: bool)
        ensures
            r == self.spec_x_overrun(),
    {
        self.bits & 0x10 != 0
    }

    /// Whether Y-axis data was overwritten before it was read.
    pub fn y_overrun(&self) -> (r: bool)
        ensures
            r == self.spec_y_overrun(),
    {
        self.bits & 0x20 != 0
    }

    /// Whether Z-axis data was overwritten before it was read.
    pub fn z_overrun(&self) -> (r: bool)
        ensures
            r == self.spec_z_overrun(),
    {
        self.bits & 0x40 != 0
    }
}

} // verus!
