//! Register map and bit-field model: the device's register addresses, the
//! bit masks of the control and status registers, and a small value-level
//! bitset over an 8-bit configuration byte.

use vstd::prelude::*;

verus! {

// Register addresses.
/// First acceleration data register (X_L, X_H, Y_L, Y_H, Z_L, Z_H).
pub const XOUT_L: u8 = 0x06;
/// Digital communication self-test response register.
pub const DCST_RESP: u8 = 0x0C;
/// Device identification register.
pub const WHO_AM_I: u8 = 0x0F;
/// First interrupt source register.
pub const INT_SOURCE1: u8 = 0x16;
/// Status register.
pub const STATUS: u8 = 0x18;
/// Interrupt latch release register.
pub const INT_REL: u8 = 0x1A;
/// First control register.
pub const CTRL1: u8 = 0x1B;
/// Second control register.
pub const CTRL2: u8 = 0x1D;
/// First interrupt control register (physical pin behavior).
pub const INT_CTRL1: u8 = 0x1E;
/// Second interrupt control register (wake-up motion directions).
pub const INT_CTRL2: u8 = 0x1F;
/// Output data rate control register.
pub const DATA_CTRL: u8 = 0x21;
/// Wake-up fault count register.
pub const WAKEUP_TIMER: u8 = 0x29;
/// MEMS self-test register.
pub const SELF_TEST: u8 = 0x3A;
/// Wake-up threshold register.
pub const WAKEUP_THRESHOLD: u8 = 0x6A;

// CTRL1 bits.
/// Power control: set while the device is taking measurements.
pub const PC1: u8 = 0b1000_0000;
/// Resolution: clear for 8-bit samples, set for 12/14-bit samples.
pub const RES: u8 = 0b0100_0000;
/// Data-ready interrupt enable.
pub const DRDYE: u8 = 0b0010_0000;
/// High bit of the full-scale range selection.
pub const GSEL1: u8 = 0b0001_0000;
/// Low bit of the full-scale range selection.
pub const GSEL0: u8 = 0b0000_1000;
/// Wake-up interrupt enable.
pub const WUFE: u8 = 0b0000_0010;

// CTRL2 bits.
/// Software reset command / reset-in-progress status.
pub const SRST: u8 = 0b1000_0000;
/// Communication self-test trigger.
pub const DCST: u8 = 0b0001_0000;

// INT_CTRL1 bits.
/// Physical interrupt pin enable.
pub const IEN: u8 = 0b0010_0000;
/// Physical interrupt pin polarity (set: active high).
pub const IEA: u8 = 0b0001_0000;
/// Physical interrupt pin latching behavior (set: pulse, clear: latch).
pub const IEL: u8 = 0b0000_1000;

// Status and interrupt source bits.
/// An interrupt has happened (STATUS).
pub const INT: u8 = 0b0001_0000;
/// New data is ready (INT_SOURCE1).
pub const DRDY: u8 = 0b0001_0000;
/// Wake-up motion detected (INT_SOURCE1).
pub const WUFS: u8 = 0b0000_0010;
/// Z-axis positive wake-up motion (INT_SOURCE2).
pub const ZPWU: u8 = 0b0000_0001;
/// Z-axis negative wake-up motion (INT_SOURCE2).
pub const ZNWU: u8 = 0b0000_0010;
/// Y-axis positive wake-up motion (INT_SOURCE2).
pub const YPWU: u8 = 0b0000_0100;
/// Y-axis negative wake-up motion (INT_SOURCE2).
pub const YNWU: u8 = 0b0000_1000;
/// X-axis positive wake-up motion (INT_SOURCE2).
pub const XPWU: u8 = 0b0001_0000;
/// X-axis negative wake-up motion (INT_SOURCE2).
pub const XNWU: u8 = 0b0010_0000;

/// Power-on value of the output data rate register: 50 Hz.
pub const DATA_CTRL_DEFAULT: u8 = 0x02;

/// Power-on value of INT_CTRL1: pin disabled, active high, latching.
pub const INT_CTRL1_DEFAULT: u8 = 0b0001_0000;

/// 7-bit base bus address of the device family.
pub const DEVICE_BASE_ADDRESS: u8 = 0x0E;

/// Shadow of one 8-bit hardware configuration register. All operations
/// are pure and value-returning; the caller decides when a candidate
/// value is committed to hardware and adopted as the new shadow.
#[derive(Debug, Clone, Copy)]
pub(crate) struct Config {
    pub(crate) bits: u8,
}

impl Config {
    /// The value with the bits of `mask` set.
    pub(crate) fn with_high(self, mask: u8) -> (r: Config)
        ensures
            r.bits == (self.bits | mask),
    {
        Config { bits: self.bits | mask }
    }

    /// The value with the bits of `mask` cleared.
    pub(crate) fn with_low(self, mask: u8) -> (r: Config)
        ensures
            r.bits == (self.bits & !mask),
    {
        Config { bits: self.bits & !mask }
    }

    /// True when any bit of `mask` is set.
    pub(crate) fn is_high(self, mask: u8) -> (r: bool)
        ensures
            r == ((self.bits & mask) != 0),
    {
        (self.bits & mask) != 0
    }
}

} // verus!
