//! Scale and noise characteristics derived from the device's current
//! configuration.
//!
//! The device's data sheet states every figure either exactly in decimal
//! (sensitivities, zero-rate levels, temperature coefficients) or as a
//! measured noise-equivalent bandwidth in hertz. All of them are represented
//! here as exact scaled integers, so that the whole calculation is a pure
//! lookup with no rounding: sensitivities in millionths of a degree/second
//! per digit, zero-rate noise in tenths of a degree/second, the
//! temperature-dependent zero-rate level in hundredths of a degree/second,
//! and the noise-equivalent bandwidth in tenths of a hertz. The
//! frequency-dependent rate noise density in degrees/second follows as
//! `0.03 * sqrt(bandwidth in Hz)`; taking the square root is left to the
//! consumer, which chooses its own floating-point type.

use vstd::prelude::*;

use crate::registers::Bandwidth;
use crate::registers::FullScale;
use crate::registers::OutputDataRate;

verus! {

/// Scale and noise characteristics of the sensor at one configuration.
#[derive(Debug, Clone, Copy, PartialEq, Eq, Structural)]
pub struct Characteristics {
    /// Full-scale selection in degrees/second.
    pub full_scale: u16,

    /// The sensitivity at the currently selected full scale, in millionths
    /// of a degree/second per digit.
    pub sensitivity_micro_dps: u32,

    /// The zero-rate noise level, in tenths of a degree/second.
    pub zero_rate_noise_tenth_dps: u16,

    /// The temperature-related zero-rate level change, in hundredths of a
    /// degree/second: the data sheet's per-degree coefficient times the raw
    /// temperature sample.
    pub zero_rate_level_temp_centi_dps: u16,

    /// The noise-equivalent bandwidth at the current bandwidth and data-rate
    /// selection, in tenths of a hertz. The rate noise density in
    /// degrees/second is `0.03 * sqrt(bandwidth in Hz)`.
    pub noise_bandwidth_tenth_hz: u16,
}

/// The full-scale limit in degrees/second of a full-scale setting; the two
/// upper-scale encodings share one physical limit.
pub open spec fn spec_full_scale_dps(fs: FullScale) -> u16 {
    match fs {
        FullScale::Dps250 => 250,
        FullScale::Dps500 => 500,
        FullScale::Dps2000 => 2000,
        FullScale::Dps2000Alt => 2000,
    }
}

/// The sensitivity of a full-scale setting in millionths of a degree/second
/// per digit: 8.75, 17.5 and 70 mdps/digit.
pub open spec fn spec_sensitivity_micro_dps(fs: FullScale) -> u32 {
    match fs {
        FullScale::Dps250 => 8750,
        FullScale::Dps500 => 17500,
        FullScale::Dps2000 => 70000,
        FullScale::Dps2000Alt => 70000,
    }
}

/// The zero-rate noise level of a full-scale setting in tenths of a
/// degree/second: 10, 15 and 75 dps.
pub open spec fn spec_zero_rate_noise_tenth_dps(fs: FullScale) -> u16 {
    match fs {
        FullScale::Dps250 => 100,
        FullScale::Dps500 => 150,
        FullScale::Dps2000 => 750,
        FullScale::Dps2000Alt => 750,
    }
}

/// The temperature coefficient of the zero-rate level in hundredths of a
/// degree/second per degree: 0.03 for the two lower scales, 0.04 for the
/// standard upper scale and 0.05 for its alternate encoding.
pub open spec fn spec_temp_coefficient_centi_dps(fs: FullScale) -> u16 {
    match fs {
        FullScale::Dps250 => 3,
        FullScale::Dps500 => 3,
        FullScale::Dps2000 => 4,
        FullScale::Dps2000Alt => 5,
    }
}

/// The noise-equivalent bandwidth in tenths of a hertz for a bandwidth and
/// data-rate selection. These are measured data-sheet constants, not derived
/// by any formula.
pub open spec fn spec_noise_bandwidth_tenth_hz(bw: Bandwidth, odr: OutputDataRate) -> u16 {
    match bw {
        Bandwidth::Narrowest => match odr {
            OutputDataRate::Hz95 => 125,
            OutputDataRate::Hz190 => 125,
            OutputDataRate::Hz380 => 200,
            OutputDataRate::Hz760 => 300,
        },
        Bandwidth::Narrow => match odr {
            OutputDataRate::Hz95 => 250,
            OutputDataRate::Hz190 => 250,
            OutputDataRate::Hz380 => 250,
            OutputDataRate::Hz760 => 350,
        },
        Bandwidth::Medium => match odr {
            OutputDataRate::Hz95 => 250,
            OutputDataRate::Hz190 => 500,
            OutputDataRate::Hz380 => 500,
            OutputDataRate::Hz760 => 500,
        },
        Bandwidth::Wide => match odr {
            OutputDataRate::Hz95 => 250,
            OutputDataRate::Hz190 => 700,
            OutputDataRate::Hz380 => 1000,
            OutputDataRate::Hz760 => 1000,
        },
    }
}

/// The characteristics that one configuration and one raw temperature sample
/// determine.
pub open spec fn spec_characteristics(
    fs: FullScale,
    odr: OutputDataRate,
    bw: Bandwidth,
    temperature: u8,
) -> Characteristics {
    Characteristics {
        full_scale: spec_full_scale_dps(fs),
        sensitivity_micro_dps: spec_sensitivity_micro_dps(fs),
        zero_rate_noise_tenth_dps: spec_zero_rate_noise_tenth_dps(fs),
        zero_rate_level_temp_centi_dps: (spec_temp_coefficient_centi_dps(fs) * temperature) as u16,
        noise_bandwidth_tenth_hz: spec_noise_bandwidth_tenth_hz(bw, odr),
    }
}

/// Computes the characteristics profile for one configuration: full scale,
/// sensitivity and zero-rate noise by lookup on the full-scale setting, the
/// temperature-dependent zero-rate level as the full scale's coefficient
/// times the raw temperature sample, and the noise-equivalent bandwidth by
/// lookup on the bandwidth and data-rate pair. Pure and total: every
/// configuration maps to a defined profile.
pub fn characteristics_for(
    fs: FullScale,
    odr: OutputDataRate,
    bw: Bandwidth,
    temperature: u8,
) -> (r: Characteristics)
    ensures
        r == spec_characteristics(fs, odr, bw, temperature),
{
    let coefficient: u16 = match fs {
        FullScale::Dps250 => 3,
        FullScale::Dps500 => 3,
        FullScale::Dps2000 => 4,
        FullScale::Dps2000Alt => 5,
    };
    Characteristics {
        full_scale: match fs {
            FullScale::Dps250 => 250,
            FullScale::Dps500 => 500,
            FullScale::Dps2000 => 2000,
            FullScale::Dps2000Alt => 2000,
        },
        sensitivity_micro_dps: match fs {
            FullScale::Dps250 => 8750,
            FullScale::Dps500 => 17500,
            FullScale::Dps2000 => 70000,
            FullScale::Dps2000Alt => 70000,
        },
        zero_rate_noise_tenth_dps: match fs {
            FullScale::Dps250 => 100,
            FullScale::Dps500 => 150,
            FullScale::Dps2000 => 750,
            FullScale::Dps2000Alt => 750,
        },
        zero_rate_level_temp_centi_dps: coefficient * (temperature as u16),
        noise_bandwidth_tenth_hz: match bw {
            Bandwidth::Narrowest => match odr {
                OutputDataRate::Hz95 => 125,
                OutputDataRate::Hz190 => 125,
                OutputDataRate::Hz380 => 200,
                OutputDataRate::Hz760 => 300,
            },
            Bandwidth::Narrow => match odr {
                OutputDataRate::Hz95 => 250,
                OutputDataRate::Hz190 => 250,
                OutputDataRate::Hz380 => 250,
                OutputDataRate::Hz760 => 350,
            },
            Bandwidth::Medium => match odr {
                OutputDataRate::Hz95 => 250,
                OutputDataRate::Hz190 => 500,
                OutputDataRate::Hz380 => 500,
                OutputDataRate::Hz760 => 500,
            },
            Bandwidth::Wide => match odr {
                OutputDataRate::Hz95 => 250,
                OutputDataRate::Hz190 => 700,
                OutputDataRate::Hz380 => 1000,
                OutputDataRate::Hz760 => 1000,
            },
        },
    }
}

impl Default for Characteristics {
    /// The profile of the configuration that [`crate::L3GD20SPI::reset`]
    /// establishes: 250 dps full scale, the narrowest bandwidth at 95 Hz,
    /// and the temperature coefficient alone as the temperature term.
    fn default() -> (r: Self)
        ensures
            r == (Characteristics {
                full_scale: 250,
                sensitivity_micro_dps: 8750,
                zero_rate_noise_tenth_dps: 100,
                zero_rate_level_temp_centi_dps: 3,
                noise_bandwidth_tenth_hz: 125,
            }),
    {
        Self {
            full_scale: 250,
            sensitivity_micro_dps: 8750,
            zero_rate_noise_tenth_dps: 100,
            zero_rate_level_temp_centi_dps: 3,
            noise_bandwidth_tenth_hz: 125,
        }
    }
}

} // verus!
