//! Seal for the traits that only this crate's device variants implement.

use vstd::prelude::*;

verus! {

/// Implemented exactly by the types of this crate that may stand behind
/// the variant-dependent traits.
pub trait Sealed {

}

impl Sealed for crate::ic::G8Device {

}

impl Sealed for crate::ic::G16Device {

}

impl Sealed for crate::kxcj9::GScaleConfig {

}

impl Sealed for crate::kxcj9::MeasurementBits {

}

} // verus!
