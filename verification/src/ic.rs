//! Device-variant markers used as type parameters of the driver.

use vstd::prelude::*;

verus! {

/// Used for KXCJ9-1008 and KXCJB-1041 devices (ranges up to +/-8g).
pub struct G8Device(());

/// Used for KXCJ9-1018 devices (ranges up to +/-16g).
pub struct G16Device(());

} // verus!
