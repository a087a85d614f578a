//! One decoded sensor sample: a temperature byte plus three freshness-tagged
//! axis values.

use vstd::prelude::*;

use crate::i16x3::I16x3;
use crate::i16x3::spec_axis_value;
use crate::reading::Reading;
use crate::reading::spec_classify;
use crate::registers::StatusFlags;

verus! {

/// Sensor data: the latest temperature reading and one freshness-tagged
/// reading per axis. The sample is owned by the caller of the read operation
/// that produced it and never mutated afterwards.
#[derive(Debug, Clone)]
pub struct SensorData {
    /// The temperature reading
    pub temperature: u8,
    /// The X-axis reading.
    pub x: Reading<i16>,
    /// The Y-axis reading.
    pub y: Reading<i16>,
    /// The Z-axis reading.
    pub z: Reading<i16>,
}

/// The sample that axis values `x`, `y`, `z`, temperature `temperature` and
/// the status byte behind `status` decode into: each axis is tagged from its
/// own data-available and overrun bits.
pub open spec fn spec_sensor_data(
    temperature: u8,
    x: i16,
    y: i16,
    z: i16,
    status: StatusFlags,
) -> SensorData {
    SensorData {
        temperature,
        x: spec_classify(x, status.spec_x_da(), status.spec_x_overrun()),
        y: spec_classify(y, status.spec_y_da(), status.spec_y_overrun()),
        z: spec_classify(z, status.spec_z_da(), status.spec_z_overrun()),
    }
}

/// The sample encoded by the reply bytes of one full-sample burst read.
///
/// `frame` is the received buffer of the transaction: the echoed command byte
/// at index 0, then temperature, status, X low, X high, Y low, Y high, Z low
/// and Z high, in exactly that order.
pub open spec fn spec_sample_of_frame(frame: Seq<u8>) -> SensorData
    recommends
        frame.len() == 9,
{
    spec_sensor_data(
        frame[1],
        spec_axis_value(frame[3], frame[4]),
        spec_axis_value(frame[5], frame[6]),
        spec_axis_value(frame[7], frame[8]),
        StatusFlags { bits: frame[2] },
    )
}

impl SensorData {
    /// Maps sensor readings into a [`SensorData`] structure, tagging each
    /// axis value from its own pair of status bits.
    pub fn new(temperature: u8, x: i16, y: i16, z: i16, status: StatusFlags) -> (r: Self)
        ensures
            r == spec_sensor_data(temperature, x, y, z, status),
    {
        Self {
            temperature,
            x: Reading::classify(x, status.x_da(), status.x_overrun()),
            y: Reading::classify(y, status.y_da(), status.y_overrun()),
            z: Reading::classify(z, status.z_da(), status.z_overrun()),
        }
    }

    /// Indicates whether at least one axis reading is stale.
    pub fn stale(&self) -> (r: bool)
        ensures
            r == (self.x is Stale || self.y is Stale || self.z is Stale),
    {
        self.x.stale() || self.y.stale() || self.z.stale()
    }

    /// Indicates whether all three axis readings are fresh.
    pub fn fresh(&self) -> (r: bool)
        ensures
            r == (self.x is Fresh && self.y is Fresh && self.z is Fresh),
    {
        self.x.fresh() && self.y.fresh() && self.z.fresh()
    }

    /// Indicates whether all three axis readings are fresh or overrun, that
    /// is, whether every axis holds new data.
    pub fn fresh_or_overrun(&self) -> (r: bool)
        ensures
            r == ((self.x is Fresh || self.x is Overrun) && (self.y is Fresh
                || self.y is Overrun) && (self.z is Fresh || self.z is Overrun)),
    {
        self.x.fresh_or_overrun() && self.y.fresh_or_overrun() && self.z.fresh_or_overrun()
    }

    /// Indicates whether at least one axis reading is fresh or overrun, that
    /// is, whether any axis holds new data.
    pub fn any_fresh_or_overrun(&self) -> (r: bool)
        ensures
            r == (self.x is Fresh || self.x is Overrun || self.y is Fresh || self.y is Overrun
                || self.z is Fresh || self.z is Overrun),
    {
        self.x.fresh_or_overrun() || self.y.fresh_or_overrun() || self.z.fresh_or_overrun()
    }

    /// Indicates whether all three axis readings are overrun.
    pub fn overrun(&self) -> (r: bool)
        ensures
            r == (self.x is Overrun && self.y is Overrun && self.z is Overrun),
    {
        self.x.overrun() && self.y.overrun() && self.z.overrun()
    }
}

impl From<SensorData> for I16x3 {
    /// Drops the freshness tags and keeps the three axis values.
    fn from(value: SensorData) -> (r: Self)
    {
        Self { x: *value.x.value(), y: *value.y.value(), z: *value.z.value() }
    }
}

impl vstd::std_specs::convert::FromSpecImpl<SensorData> for I16x3 {
    open spec fn obeys_from_spec() -> bool {
        true
    }

    open spec fn from_spec(value: SensorData) -> I16x3 {
        I16x3 { x: value.x.spec_value(), y: value.y.spec_value(), z: value.z.spec_value() }
    }
}

} // verus!
