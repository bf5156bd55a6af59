//! Scale resolver: how raw samples and the configured range compose into
//! physical acceleration, per device variant.

use vstd::prelude::*;
use crate::ic;
use crate::kxcj9::{GScaleConfig, MeasurementBits};
use crate::private;
use crate::types::{Error, Measurement, UnscaledMeasurement};

verus! {

/// The exact conversion factor from a raw sample to units of 1/4096 g:
/// a sample of `span` (the half-scale span) corresponds to `range_g` g.
/// All ranges and spans are powers of two, so the factor is an integer
/// and the conversion is exact.
pub open spec fn scale_factor_q12(range_g: int, bits: MeasurementBits) -> int {
    range_g * 4096 / bits.spec_half_scale_span()
}

/// Variant-dependent scaling: the full-scale range table and the wake-up
/// threshold encoding of one device variant.
pub trait ScaledDevice: private::Sealed {
    /// Full-scale range in g selected by `scale_config` on this variant.
    spec fn range_g(scale_config: GScaleConfig) -> int;

    /// Highest supported wake-up threshold, in milli-g.
    spec fn max_wake_up_threshold_mg() -> int;

    /// Wake-up threshold register counts per g.
    spec fn counts_per_g() -> int;

    /// Scale a raw measurement to units of 1/4096 g, given the sample
    /// width and range selection it was taken with.
    fn get_scaled(
        unscaled: UnscaledMeasurement,
        bits: MeasurementBits,
        scale_config: GScaleConfig,
    ) -> (m: Measurement)
        ensures
            m.x == unscaled.x * scale_factor_q12(Self::range_g(scale_config), bits),
            m.y == unscaled.y * scale_factor_q12(Self::range_g(scale_config), bits),
            m.z == unscaled.z * scale_factor_q12(Self::range_g(scale_config), bits),
    ;

    /// Encode a wake-up threshold given in milli-g as the 8-bit register
    /// value, rounding to the nearest count; thresholds that are negative
    /// or beyond the variant's maximum are rejected.
    fn get_wake_up_threshold<E>(threshold_mg: i32) -> (r: Result<u8, Error<E>>)
        ensures
            match r {
                Ok(code) => {
                    &&& 0 <= threshold_mg <= Self::max_wake_up_threshold_mg()
                    &&& code == (threshold_mg * Self::counts_per_g() + 500) / 1000
                },
                Err(e) => {
                    &&& e is InvalidSetting
                    &&& !(0 <= threshold_mg <= Self::max_wake_up_threshold_mg())
                },
            },
    ;
}

impl ScaledDevice for ic::G8Device {
    /// Range table of the +/-8g variant: 2, 4, 8 and 8 g; the last two
    /// entries coincide because the top code selects the full range in
    /// full-power mode rather than a distinct range.
    open spec fn range_g(scale_config: GScaleConfig) -> int {
        match scale_config {
            GScaleConfig::_0 => 2,
            GScaleConfig::_1 => 4,
            GScaleConfig::_2 => 8,
            GScaleConfig::_3 => 8,
        }
    }

    open spec fn max_wake_up_threshold_mg() -> int {
        8000
    }

    open spec fn counts_per_g() -> int {
        16
    }

    fn get_scaled(
        unscaled: UnscaledMeasurement,
        bits: MeasurementBits,
        scale_config: GScaleConfig,
    ) -> (m: Measurement) {
        let factor: i32 = match bits {
            MeasurementBits::_8bit => match scale_config {
                GScaleConfig::_0 => 64,
                GScaleConfig::_1 => 128,
                GScaleConfig::_2 => 256,
                GScaleConfig::_3 => 256,
            },
            MeasurementBits::_12bit => match scale_config {
                GScaleConfig::_0 => 4,
                GScaleConfig::_1 => 8,
                GScaleConfig::_2 => 16,
                GScaleConfig::_3 => 16,
            },
            MeasurementBits::_14bit => match scale_config {
                GScaleConfig::_0 => 1,
                GScaleConfig::_1 => 2,
                GScaleConfig::_2 => 4,
                GScaleConfig::_3 => 4,
            },
        };
        Measurement {
            x: (unscaled.x as i32) * factor,
            y: (unscaled.y as i32) * factor,
            z: (unscaled.z as i32) * factor,
        }
    }

    fn get_wake_up_threshold<E>(threshold_mg: i32) -> (r: Result<u8, Error<E>>) {
        if threshold_mg < 0 || threshold_mg > 8000 {
            Err(Error::InvalidSetting)
        } else {
            Ok(((threshold_mg * 16 + 500) / 1000) as u8)
        }
    }
}

impl ScaledDevice for ic::G16Device {
    /// Range table of the +/-16g variant: 4, 8, 16 and 16 g.
    open spec fn range_g(scale_config: GScaleConfig) -> int {
        match scale_config {
            GScaleConfig::_0 => 4,
            GScaleConfig::_1 => 8,
            GScaleConfig::_2 => 16,
            GScaleConfig::_3 => 16,
        }
    }

    open spec fn max_wake_up_threshold_mg() -> int {
        16000
    }

    /// The datasheet of this variant states a different factor; the value
    /// here is the vendor-confirmed one, under which the reset threshold
    /// corresponds to 1 g.
    open spec fn counts_per_g() -> int {
        8
    }

    fn get_scaled(
        unscaled: UnscaledMeasurement,
        bits: MeasurementBits,
        scale_config: GScaleConfig,
    ) -> (m: Measurement) {
        let factor: i32 = match bits {
            MeasurementBits::_8bit => match scale_config {
                GScaleConfig::_0 => 128,
                GScaleConfig::_1 => 256,
                GScaleConfig::_2 => 512,
                GScaleConfig::_3 => 512,
            },
            MeasurementBits::_12bit => match scale_config {
                GScaleConfig::_0 => 8,
                GScaleConfig::_1 => 16,
                GScaleConfig::_2 => 32,
                GScaleConfig::_3 => 32,
            },
            MeasurementBits::_14bit => match scale_config {
                GScaleConfig::_0 => 2,
                GScaleConfig::_1 => 4,
                GScaleConfig::_2 => 8,
                GScaleConfig::_3 => 8,
            },
        };
        Measurement {
            x: (unscaled.x as i32) * factor,
            y: (unscaled.y as i32) * factor,
            z: (unscaled.z as i32) * factor,
        }
    }

    fn get_wake_up_threshold<E>(threshold_mg: i32) -> (r: Result<u8, Error<E>>) {
        if threshold_mg < 0 || threshold_mg > 16000 {
            Err(Error::InvalidSetting)
        } else {
            Ok(((threshold_mg * 8 + 500) / 1000) as u8)
        }
    }
}

} // verus!
