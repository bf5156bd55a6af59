//! The device handle and its configuration state machine.

use vstd::prelude::*;
use core::marker::PhantomData;
use crate::bus::{BusOp, I2cBus};
use crate::ic;
use crate::regs;
use crate::regs::Config;
use crate::conversion::{
    convert_8bit, convert_12bit, convert_14bit, sign_extended_8, sign_extended_12,
    sign_extended_14,
};
use crate::scaled_device::{scale_factor_q12, ScaledDevice};
use crate::types::{
    Error, GScale16, GScale8, InterruptInfo, InterruptPinLatching, InterruptPinPolarity,
    Measurement, OutputDataRate, ResetStatus, Resolution, SlaveAddr, UnscaledMeasurement,
    WakeUpInterruptConfig, WakeUpOutputDataRate, WakeUpTriggerMotion,
};

verus! {

/// Width of the acceleration samples selected by the current
/// configuration.
pub enum MeasurementBits {
    /// 8-bit samples.
    _8bit,
    /// 12-bit samples.
    _12bit,
    /// 14-bit samples.
    _14bit,
}

impl MeasurementBits {
    /// Magnitude of the most negative representable sample; the implicit
    /// full-scale denominator of the device's converter.
    pub open spec fn spec_half_scale_span(self) -> int {
        match self {
            MeasurementBits::_8bit => 128,
            MeasurementBits::_12bit => 2048,
            MeasurementBits::_14bit => 8192,
        }
    }

    /// Magnitude of the most negative representable sample.
    pub fn half_scale_span(self) -> (r: u16)
        ensures
            r == self.spec_half_scale_span(),
    {
        match self {
            MeasurementBits::_8bit => 128,
            MeasurementBits::_12bit => 2048,
            MeasurementBits::_14bit => 8192,
        }
    }

    /// The sample width selected by a CTRL1 value: 8-bit in low
    /// resolution, and in high resolution 14-bit when both range-select
    /// bits are set (full power), 12-bit otherwise.
    pub open spec fn spec_from_ctrl1(ctrl1: u8) -> MeasurementBits {
        if ctrl1 & regs::RES == 0 {
            MeasurementBits::_8bit
        } else if ctrl1 & regs::GSEL0 != 0 && ctrl1 & regs::GSEL1 != 0 {
            MeasurementBits::_14bit
        } else {
            MeasurementBits::_12bit
        }
    }
}

/// The 2-bit full-scale range selection field of CTRL1, as an index into
/// the device variant's range table.
pub enum GScaleConfig {
    /// Both range-select bits clear.
    _0,
    /// GSEL0 set.
    _1,
    /// GSEL1 set.
    _2,
    /// Both range-select bits set (full power).
    _3,
}

impl GScaleConfig {
    /// The range selection encoded in a CTRL1 value.
    pub open spec fn spec_from_ctrl1(ctrl1: u8) -> GScaleConfig {
        if ctrl1 & regs::GSEL0 == 0 && ctrl1 & regs::GSEL1 == 0 {
            GScaleConfig::_0
        } else if ctrl1 & regs::GSEL0 != 0 && ctrl1 & regs::GSEL1 == 0 {
            GScaleConfig::_1
        } else if ctrl1 & regs::GSEL0 == 0 && ctrl1 & regs::GSEL1 != 0 {
            GScaleConfig::_2
        } else {
            GScaleConfig::_3
        }
    }

    /// Decode the range selection field of a CTRL1 shadow value.
    pub(crate) fn from_ctrl1(ctrl1: Config) -> (r: GScaleConfig)
        ensures
            r == GScaleConfig::spec_from_ctrl1(ctrl1.bits),
    {
        let gsel0 = ctrl1.is_high(regs::GSEL0);
        let gsel1 = ctrl1.is_high(regs::GSEL1);
        if !gsel0 && !gsel1 {
            GScaleConfig::_0
        } else if gsel0 && !gsel1 {
            GScaleConfig::_1
        } else if !gsel0 && gsel1 {
            GScaleConfig::_2
        } else {
            GScaleConfig::_3
        }
    }
}

/// Ghost state of a device handle: the resolved bus address, the shadows
/// of the device-side configuration registers, the reset-in-progress
/// flag, and the history of bus transactions performed so far.
pub struct DevView {
    /// Resolved 7-bit bus address.
    pub address: u8,
    /// Shadow of the CTRL1 register.
    pub ctrl1: u8,
    /// Shadow of the CTRL2 register.
    pub ctrl2: u8,
    /// Shadow of the INT_CTRL1 register.
    pub int_ctrl1: u8,
    /// Shadow of the DATA_CTRL register.
    pub data_ctrl: u8,
    /// Whether a software reset was triggered and its completion not yet
    /// observed.
    pub reset_started: bool,
    /// History of the transactions completed on the bus, oldest first.
    pub ops: Seq<BusOp>,
}

impl DevView {
    /// A write of `value` to register `reg` of this device.
    pub open spec fn write_op(self, reg: u8, value: u8) -> BusOp {
        BusOp::Write { addr: self.address, reg, value }
    }

    /// A read of `data` from register `reg` of this device.
    pub open spec fn read_op(self, reg: u8, data: Seq<u8>) -> BusOp {
        BusOp::Read { addr: self.address, reg, data }
    }

    /// The same state with a different transaction history.
    pub open spec fn with_ops(self, ops: Seq<BusOp>) -> DevView {
        DevView { ops, ..self }
    }

    /// State after a write to a register that has no shadow: only the
    /// history grows.
    pub open spec fn after_plain_write(self, reg: u8, value: u8) -> DevView {
        self.with_ops(self.ops.push(self.write_op(reg, value)))
    }

    /// State after a read of `data` from register `reg`: only the history
    /// grows.
    pub open spec fn after_read(self, reg: u8, data: Seq<u8>) -> DevView {
        self.with_ops(self.ops.push(self.read_op(reg, data)))
    }

    /// State after a committed CTRL1 write: the value went over the bus
    /// and the shadow was updated to it.
    pub open spec fn after_ctrl1_write(self, value: u8) -> DevView {
        DevView { ctrl1: value, ..self.after_plain_write(regs::CTRL1, value) }
    }

    /// State after a committed CTRL2 write.
    pub open spec fn after_ctrl2_write(self, value: u8) -> DevView {
        DevView { ctrl2: value, ..self.after_plain_write(regs::CTRL2, value) }
    }

    /// State after a committed DATA_CTRL write.
    pub open spec fn after_data_ctrl_write(self, value: u8) -> DevView {
        DevView { data_ctrl: value, ..self.after_plain_write(regs::DATA_CTRL, value) }
    }

    /// State after the power-down write that precedes every settings
    /// change: the hardware ignores configuration writes while sampling,
    /// so PC1 is cleared first.
    pub open spec fn after_prepare(self) -> DevView {
        self.after_ctrl1_write(self.ctrl1 & !regs::PC1)
    }
}

/// Relation of a single committed CTRL1 update (no preceding power-down):
/// on success the shadow and the history advance together; on a bus error
/// nothing changes.
pub open spec fn direct_ctrl1_update<E>(
    pre: DevView,
    post: DevView,
    target: u8,
    r: Result<(), Error<E>>,
) -> bool {
    match r {
        Ok(()) => post == pre.after_ctrl1_write(target),
        Err(e) => e is I2C && post == pre,
    }
}

/// Relation of a settings change that clears PC1 and then writes `target`
/// to CTRL1. On a bus error the sequence stops where it failed: either
/// nothing happened, or only the power-down write went through.
pub open spec fn prepared_ctrl1_update<E>(
    pre: DevView,
    post: DevView,
    target: u8,
    r: Result<(), Error<E>>,
) -> bool {
    match r {
        Ok(()) => post == pre.after_prepare().after_ctrl1_write(target),
        Err(e) => e is I2C && (post == pre || post == pre.after_prepare()),
    }
}

/// The 3-bit code held in the DATA_CTRL register for each output data
/// rate.
pub open spec fn spec_odr_code(odr: OutputDataRate) -> u8 {
    match odr {
        OutputDataRate::Hz0_781 => 0b000_1000,
        OutputDataRate::Hz1_563 => 0b000_1001,
        OutputDataRate::Hz3_125 => 0b000_1010,
        OutputDataRate::Hz6_25 => 0b000_1011,
        OutputDataRate::Hz12_5 => 0b000_0000,
        OutputDataRate::Hz25 => 0b000_0001,
        OutputDataRate::Hz50 => 0b000_0010,
        OutputDataRate::Hz100 => 0b000_0011,
        OutputDataRate::Hz200 => 0b000_0100,
        OutputDataRate::Hz400 => 0b000_0101,
        OutputDataRate::Hz800 => 0b000_0110,
        OutputDataRate::Hz1600 => 0b000_0111,
    }
}

/// Whether a DATA_CTRL code stands for one of the three high-speed rates
/// (400/800/1600 Hz), which are incompatible with low resolution.
pub open spec fn odr_code_is_high_speed(code: u8) -> bool {
    5 <= code <= 7
}

/// Whether an output data rate is one of the three high-speed rates.
pub open spec fn odr_is_high_speed(odr: OutputDataRate) -> bool {
    odr_code_is_high_speed(spec_odr_code(odr))
}

/// Relation of `set_resolution`. Selecting high resolution is a plain
/// prepared CTRL1 update. Selecting low resolution first reads the
/// device-side DATA_CTRL register: a high-speed code there makes the call
/// fail with `InvalidSetting` (low resolution is physically incompatible
/// with those rates) with no write issued; otherwise the prepared CTRL1
/// update follows.
pub open spec fn set_resolution_rel<E>(
    pre: DevView,
    post: DevView,
    resolution: Resolution,
    r: Result<(), Error<E>>,
) -> bool {
    match resolution {
        Resolution::High => prepared_ctrl1_update(pre, post, pre.ctrl1 | regs::RES, r),
        Resolution::Low => match r {
            Ok(()) => exists|d: u8|
                #![auto]
                !odr_code_is_high_speed(d) && post == pre.after_read(
                    regs::DATA_CTRL,
                    seq![d],
                ).after_prepare().after_ctrl1_write(pre.ctrl1 & !regs::RES),
            Err(e) => match e {
                Error::InvalidSetting => exists|d: u8|
                    #![auto]
                    odr_code_is_high_speed(d) && post == pre.after_read(regs::DATA_CTRL, seq![d]),
                Error::I2C(_) => post == pre || (exists|d: u8|
                    #![auto]
                    !odr_code_is_high_speed(d) && (post == pre.after_read(regs::DATA_CTRL, seq![d])
                        || post == pre.after_read(regs::DATA_CTRL, seq![d]).after_prepare())),
                Error::SelfTestError => false,
            },
        },
    }
}

/// Relation of `set_output_data_rate`: power down, write the rate code to
/// DATA_CTRL, and re-issue the CTRL1 write only when the resulting value
/// differs from what the power-down left there — a high-speed rate forces
/// the resolution bit on, everything else of CTRL1 is restored as it was.
pub open spec fn set_output_data_rate_rel<E>(
    pre: DevView,
    post: DevView,
    odr: OutputDataRate,
    r: Result<(), Error<E>>,
) -> bool {
    let code = spec_odr_code(odr);
    let target = if odr_is_high_speed(odr) {
        pre.ctrl1 | regs::RES
    } else {
        pre.ctrl1
    };
    let mid1 = pre.after_prepare();
    let mid2 = mid1.after_data_ctrl_write(code);
    match r {
        Ok(()) => post == (if target == mid2.ctrl1 {
            mid2
        } else {
            mid2.after_ctrl1_write(target)
        }),
        Err(e) => e is I2C && (post == pre || post == mid1 || post == mid2),
    }
}

/// The interrupt flags encoded in the two interrupt source registers.
pub open spec fn interrupt_info_from(s1: u8, s2: u8) -> InterruptInfo {
    InterruptInfo {
        data_ready: s1 & regs::DRDY != 0,
        wake_up: s1 & regs::WUFS != 0,
        wake_up_x_negative: s2 & regs::XNWU != 0,
        wake_up_x_positive: s2 & regs::XPWU != 0,
        wake_up_y_negative: s2 & regs::YNWU != 0,
        wake_up_y_positive: s2 & regs::YPWU != 0,
        wake_up_z_negative: s2 & regs::ZNWU != 0,
        wake_up_z_positive: s2 & regs::ZPWU != 0,
    }
}

/// The 16-bit little-endian word assembled from two data register bytes.
pub open spec fn word_le(lo: u8, hi: u8) -> u16 {
    (lo + hi * 256) as u16
}

/// The unscaled measurement encoded in the six data register bytes, under
/// the sample width that a CTRL1 value selects: one byte per axis for
/// 8-bit samples, a little-endian word per axis for 12- and 14-bit
/// samples.
pub open spec fn decode_unscaled(ctrl1: u8, data: Seq<u8>) -> UnscaledMeasurement
    recommends
        data.len() == 6,
{
    match MeasurementBits::spec_from_ctrl1(ctrl1) {
        MeasurementBits::_8bit => UnscaledMeasurement {
            x: sign_extended_8(data[0]) as i16,
            y: sign_extended_8(data[2]) as i16,
            z: sign_extended_8(data[4]) as i16,
        },
        MeasurementBits::_12bit => UnscaledMeasurement {
            x: sign_extended_12(word_le(data[0], data[1])) as i16,
            y: sign_extended_12(word_le(data[2], data[3])) as i16,
            z: sign_extended_12(word_le(data[4], data[5])) as i16,
        },
        MeasurementBits::_14bit => UnscaledMeasurement {
            x: sign_extended_14(word_le(data[0], data[1])) as i16,
            y: sign_extended_14(word_le(data[2], data[3])) as i16,
            z: sign_extended_14(word_le(data[4], data[5])) as i16,
        },
    }
}

/// The ghost state right after the software reset command was issued:
/// the read of the reset-status bit and the reset command stand in the
/// history, every shadow is back at its power-on default, and the
/// reset-in-progress flag is set.
pub open spec fn reset_triggered(pre: DevView, status: u8) -> DevView {
    DevView {
        ctrl1: 0,
        ctrl2: 0,
        int_ctrl1: regs::INT_CTRL1_DEFAULT,
        data_ctrl: regs::DATA_CTRL_DEFAULT,
        reset_started: true,
        ..pre.after_read(regs::CTRL2, seq![status]).after_plain_write(regs::CTRL2, regs::SRST)
    }
}

/// Relation of one `reset` poll. Every call first reads the device-side
/// reset-status bit of CTRL2. While the bit is set the call only reports
/// that the reset is still running. With the bit clear, the call that
/// follows an earlier trigger is the one that reports completion and
/// clears the in-progress flag; otherwise this call is the trigger: it
/// issues the reset command exactly once, returns every shadow to its
/// power-on default, and reports the reset as in progress.
pub open spec fn reset_rel<E>(
    pre: DevView,
    post: DevView,
    r: Result<ResetStatus, Error<E>>,
) -> bool {
    match r {
        Ok(ResetStatus::InProgress) => {
            ||| exists|c: u8|
                #![auto]
                c & regs::SRST != 0 && post == pre.after_read(regs::CTRL2, seq![c])
            ||| exists|c: u8|
                #![auto]
                c & regs::SRST == 0 && !pre.reset_started && post == reset_triggered(pre, c)
        },
        Ok(ResetStatus::Done) => exists|c: u8|
            #![auto]
            c & regs::SRST == 0 && pre.reset_started && post == (DevView {
                reset_started: false,
                ..pre.after_read(regs::CTRL2, seq![c])
            }),
        Err(e) => e is I2C && {
            ||| post == pre
            ||| exists|c: u8|
                #![auto]
                c & regs::SRST == 0 && !pre.reset_started && post == pre.after_read(
                    regs::CTRL2,
                    seq![c],
                )
        },
    }
}

/// Relation of `communication_self_test`: the response register must
/// read the armed value, then after the trigger bit is set it must read
/// the triggered value, the trigger bit must have cleared itself, and
/// the response register must be back at the armed value; the first
/// deviation stops the protocol with `SelfTestError`.
pub open spec fn comm_self_test_rel<E>(
    pre: DevView,
    post: DevView,
    r: Result<(), Error<E>>,
) -> bool {
    let s1 = pre.after_read(regs::DCST_RESP, seq![0x55u8]);
    let s2 = s1.after_plain_write(regs::CTRL2, pre.ctrl2 | regs::DCST);
    let s3 = s2.after_read(regs::DCST_RESP, seq![0xAAu8]);
    match r {
        Ok(()) => exists|c: u8|
            #![auto]
            c & regs::DCST == 0 && post == s3.after_read(regs::CTRL2, seq![c]).after_read(
                regs::DCST_RESP,
                seq![0x55u8],
            ),
        Err(e) => match e {
            Error::SelfTestError => {
                ||| exists|d: u8|
                    #![auto]
                    d != 0x55 && post == pre.after_read(regs::DCST_RESP, seq![d])
                ||| exists|d: u8|
                    #![auto]
                    d != 0xAA && post == s2.after_read(regs::DCST_RESP, seq![d])
                ||| exists|c: u8|
                    #![auto]
                    c & regs::DCST != 0 && post == s3.after_read(regs::CTRL2, seq![c])
                ||| exists|c: u8, d: u8|
                    #![auto]
                    c & regs::DCST == 0 && d != 0x55 && post == s3.after_read(
                        regs::CTRL2,
                        seq![c],
                    ).after_read(regs::DCST_RESP, seq![d])
            },
            Error::I2C(_) => {
                ||| post == pre
                ||| post == s1
                ||| post == s2
                ||| post == s3
                ||| exists|c: u8|
                    #![auto]
                    c & regs::DCST == 0 && post == s3.after_read(regs::CTRL2, seq![c])
            },
            Error::InvalidSetting => false,
        },
    }
}

/// The INT_CTRL2 mask selecting which motion directions trigger the
/// wake-up interrupt.
pub open spec fn motion_mask(m: WakeUpTriggerMotion) -> u8 {
    let v: u8 = 0;
    let v: u8 = if m.x_negative { v | regs::XNWU } else { v };
    let v: u8 = if m.x_positive { v | regs::XPWU } else { v };
    let v: u8 = if m.y_negative { v | regs::YNWU } else { v };
    let v: u8 = if m.y_positive { v | regs::YPWU } else { v };
    let v: u8 = if m.z_negative { v | regs::ZNWU } else { v };
    let v: u8 = if m.z_positive { v | regs::ZPWU } else { v };
    v
}

/// The 3-bit code of the wake-up motion detection data rate, held in the
/// low bits of CTRL2.
pub open spec fn spec_wake_odr_code(odr: WakeUpOutputDataRate) -> u8 {
    match odr {
        WakeUpOutputDataRate::Hz0_781 => 0,
        WakeUpOutputDataRate::Hz1_563 => 1,
        WakeUpOutputDataRate::Hz3_125 => 2,
        WakeUpOutputDataRate::Hz6_25 => 3,
        WakeUpOutputDataRate::Hz12_5 => 4,
        WakeUpOutputDataRate::Hz25 => 5,
        WakeUpOutputDataRate::Hz50 => 6,
        WakeUpOutputDataRate::Hz100 => 7,
    }
}

/// Whether a wake-up interrupt configuration is representable on the
/// device variant `IC`: the fault count must not be zero and the
/// threshold must lie within the variant's supported range.
pub open spec fn wake_up_config_valid<IC: ScaledDevice>(config: WakeUpInterruptConfig) -> bool {
    config.fault_count != 0 && 0 <= config.threshold <= IC::max_wake_up_threshold_mg()
}

/// Relation of `enable_wake_up_interrupt`. An invalid configuration is
/// rejected with `InvalidSetting` before any bus transaction. A valid
/// one is written as: power down, motion directions to INT_CTRL2, the
/// wake-up data rate into the low bits of CTRL2 (other bits preserved),
/// the fault count, the encoded threshold, and finally CTRL1 with the
/// wake-up enable bit set and the rest as it was.
pub open spec fn enable_wake_up_rel<IC: ScaledDevice, E>(
    pre: DevView,
    post: DevView,
    config: WakeUpInterruptConfig,
    r: Result<(), Error<E>>,
) -> bool {
    let tcode = ((config.threshold * IC::counts_per_g() + 500) / 1000) as u8;
    let s1 = pre.after_prepare();
    let s2 = s1.after_plain_write(regs::INT_CTRL2, motion_mask(config.trigger_motion));
    let s3 = s2.after_ctrl2_write((pre.ctrl2 & !0x07) | spec_wake_odr_code(config.data_rate));
    let s4 = s3.after_plain_write(regs::WAKEUP_TIMER, config.fault_count);
    let s5 = s4.after_plain_write(regs::WAKEUP_THRESHOLD, tcode);
    match r {
        Ok(()) => wake_up_config_valid::<IC>(config) && post == s5.after_ctrl1_write(
            pre.ctrl1 | regs::WUFE,
        ),
        Err(e) => match e {
            Error::InvalidSetting => !wake_up_config_valid::<IC>(config) && post == pre,
            Error::I2C(_) => wake_up_config_valid::<IC>(config) && {
                ||| post == pre
                ||| post == s1
                ||| post == s2
                ||| post == s3
                ||| post == s4
                ||| post == s5
            },
            Error::SelfTestError => false,
        },
    }
}

/// Relation of the four interrupt-pin operations: power down, write the
/// new INT_CTRL1 value, then restore the CTRL1 value from before the
/// operation, skipping that last write when the power-down already left
/// CTRL1 at that value.
pub open spec fn int_ctrl1_update_rel<E>(
    pre: DevView,
    post: DevView,
    target: u8,
    r: Result<(), Error<E>>,
) -> bool {
    let s1 = pre.after_prepare();
    let s2 = DevView { int_ctrl1: target, ..s1.after_plain_write(regs::INT_CTRL1, target) };
    match r {
        Ok(()) => post == (if pre.ctrl1 == s2.ctrl1 {
            s2
        } else {
            s2.after_ctrl1_write(pre.ctrl1)
        }),
        Err(e) => e is I2C && (post == pre || post == s1 || post == s2),
    }
}

/// The CTRL1 value that selects a +/-8g-variant scale: the range-select
/// bits are rewritten, and the full-power entry also forces high
/// resolution.
pub open spec fn gscale8_target(ctrl1: u8, scale: GScale8) -> u8 {
    match scale {
        GScale8::G2 => ctrl1 & !regs::GSEL0 & !regs::GSEL1,
        GScale8::G4 => (ctrl1 | regs::GSEL0) & !regs::GSEL1,
        GScale8::G8 => (ctrl1 & !regs::GSEL0) | regs::GSEL1,
        GScale8::G8FP => ctrl1 | regs::RES | regs::GSEL0 | regs::GSEL1,
    }
}

/// The CTRL1 value that selects a +/-16g-variant scale.
pub open spec fn gscale16_target(ctrl1: u8, scale: GScale16) -> u8 {
    match scale {
        GScale16::G4 => ctrl1 & !regs::GSEL0 & !regs::GSEL1,
        GScale16::G8 => (ctrl1 | regs::GSEL0) & !regs::GSEL1,
        GScale16::G16 => (ctrl1 & !regs::GSEL0) | regs::GSEL1,
        GScale16::G16FP => ctrl1 | regs::RES | regs::GSEL0 | regs::GSEL1,
    }
}

/// KXCJ9/KXCJB device driver.
///
/// The handle owns the bus exclusively and keeps a shadow of every
/// configuration register it writes; a shadow is updated only after the
/// hardware write succeeded, so it always holds the last known-good
/// device-side value.
#[derive(Debug)]
pub struct Kxcj9<I2C, IC> {
    /// The concrete bus implementation.
    i2c: I2C,
    address: u8,
    ctrl1: Config,
    ctrl2: Config,
    int_ctrl1: Config,
    data_ctrl: u8,
    was_reset_started: bool,
    _ic: PhantomData<IC>,
}

impl<I2C: I2cBus, IC> View for Kxcj9<I2C, IC> {
    type V = DevView;

    closed spec fn view(&self) -> DevView {
        DevView {
            address: self.address,
            ctrl1: self.ctrl1.bits,
            ctrl2: self.ctrl2.bits,
            int_ctrl1: self.int_ctrl1.bits,
            data_ctrl: self.data_ctrl,
            reset_started: self.was_reset_started,
            ops: self.i2c.ops(),
        }
    }
}

/// The ghost state a fresh handle starts from: power-on shadow values and
/// whatever history the bus already carries.
pub open spec fn initial_dev_view(address: SlaveAddr, ops: Seq<BusOp>) -> DevView {
    DevView {
        address: address.spec_addr(regs::DEVICE_BASE_ADDRESS),
        ctrl1: 0,
        ctrl2: 0,
        int_ctrl1: regs::INT_CTRL1_DEFAULT,
        data_ctrl: regs::DATA_CTRL_DEFAULT,
        reset_started: false,
        ops,
    }
}

impl<I2C: I2cBus> Kxcj9<I2C, ic::G8Device> {
    /// Create new instance of the KXCJ9-1008 device.
    pub fn new_1008(i2c: I2C, address: SlaveAddr) -> (r: Self)
        ensures
            r.bus() == i2c,
            r@ == initial_dev_view(address, i2c.ops()),
    {
        Kxcj9 {
            i2c,
            address: address.addr(regs::DEVICE_BASE_ADDRESS),
            ctrl1: Config { bits: 0 },
            ctrl2: Config { bits: 0 },
            int_ctrl1: Config { bits: regs::INT_CTRL1_DEFAULT },
            data_ctrl: regs::DATA_CTRL_DEFAULT,
            was_reset_started: false,
            _ic: PhantomData,
        }
    }
}

impl<I2C: I2cBus> Kxcj9<I2C, ic::G16Device> {
    /// Create new instance of the KXCJ9-1018 device.
    pub fn new_1018(i2c: I2C, address: SlaveAddr) -> (r: Self)
        ensures
            r.bus() == i2c,
            r@ == initial_dev_view(address, i2c.ops()),
    {
        Kxcj9 {
            i2c,
            address: address.addr(regs::DEVICE_BASE_ADDRESS),
            ctrl1: Config { bits: 0 },
            ctrl2: Config { bits: 0 },
            int_ctrl1: Config { bits: regs::INT_CTRL1_DEFAULT },
            data_ctrl: regs::DATA_CTRL_DEFAULT,
            was_reset_started: false,
            _ic: PhantomData,
        }
    }
}

impl<I2C: I2cBus, IC> Kxcj9<I2C, IC> {
    /// The owned bus handle.
    pub closed spec fn bus(&self) -> I2C {
        self.i2c
    }

    /// Destroy driver instance, return the bus instance.
    pub fn destroy(self) -> (r: I2C)
        ensures
            r == self.bus(),
    {
        self.i2c
    }

    /// Enable the device (starts taking measurements): sets the
    /// power-control bit of CTRL1.
    pub fn enable(&mut self) -> (r: Result<(), Error<I2C::BusError>>)
        ensures
            direct_ctrl1_update(old(self)@, final(self)@, old(self)@.ctrl1 | regs::PC1, r),
    {
        let config = self.ctrl1.with_high(regs::PC1);
        self.update_ctrl1(config)
    }

    /// Disable the device: clears the power-control bit of CTRL1.
    pub fn disable(&mut self) -> (r: Result<(), Error<I2C::BusError>>)
        ensures
            direct_ctrl1_update(old(self)@, final(self)@, old(self)@.ctrl1 & !regs::PC1, r),
    {
        let config = self.ctrl1.with_low(regs::PC1);
        self.update_ctrl1(config)
    }

    /// Read the `WHO_AM_I` register. This should return `0xF`.
    pub fn who_am_i(&mut self) -> (r: Result<u8, Error<I2C::BusError>>)
        ensures
            match r {
                Ok(v) => final(self)@ == old(self)@.after_read(regs::WHO_AM_I, seq![v]),
                Err(e) => e is I2C && final(self)@ == old(self)@,
            },
    {
        self.read_register(regs::WHO_AM_I)
    }

    /// Set resolution.
    ///
    /// Returns `Err(Error::InvalidSetting)` when asked for
    /// `Resolution::Low` while the configured output data rate is 400 Hz
    /// or higher, without issuing any write.
    pub fn set_resolution(&mut self, resolution: Resolution) -> (r: Result<
        (),
        Error<I2C::BusError>,
    >)
        ensures
            set_resolution_rel(old(self)@, final(self)@, resolution, r),
    {
        let ghost pre = self@;
        let ghost mut gd: u8 = 0;
        let config: Config;
        match resolution {
            Resolution::Low => {
                let data_ctrl = match self.read_register(regs::DATA_CTRL) {
                    Ok(v) => v,
                    Err(e) => {
                        return Err(e);
                    },
                };
                proof {
                    gd = data_ctrl;
                }
                if 5 <= data_ctrl && data_ctrl <= 7 {
                    proof {
                        assert(odr_code_is_high_speed(gd) && self@ == pre.after_read(
                            regs::DATA_CTRL,
                            seq![gd],
                        ));
                    }
                    return Err(Error::InvalidSetting);
                }
                config = self.ctrl1.with_low(regs::RES);
            },
            Resolution::High => {
                config = self.ctrl1.with_high(regs::RES);
            },
        }
        match self.prepare_ctrl1_to_change_settings() {
            Ok(()) => {},
            Err(e) => {
                proof {
                    if resolution is Low {
                        assert(!odr_code_is_high_speed(gd) && self@ == pre.after_read(
                            regs::DATA_CTRL,
                            seq![gd],
                        ));
                    }
                }
                return Err(e);
            },
        }
        let result = self.update_ctrl1(config);
        proof {
            if resolution is Low {
                if result is Ok {
                    assert(!odr_code_is_high_speed(gd) && self@ == pre.after_read(
                        regs::DATA_CTRL,
                        seq![gd],
                    ).after_prepare().after_ctrl1_write(pre.ctrl1 & !regs::RES));
                } else {
                    assert(!odr_code_is_high_speed(gd) && self@ == pre.after_read(
                        regs::DATA_CTRL,
                        seq![gd],
                    ).after_prepare());
                }
            }
        }
        result
    }

    /// Set output data rate.
    ///
    /// Setting one of the high-speed rates (400 Hz or higher) also sets
    /// the resolution to high.
    pub fn set_output_data_rate(&mut self, odr: OutputDataRate) -> (r: Result<
        (),
        Error<I2C::BusError>,
    >)
        ensures
            set_output_data_rate_rel(old(self)@, final(self)@, odr, r),
    {
        let config: u8 = match odr {
            OutputDataRate::Hz0_781 => 0b000_1000,
            OutputDataRate::Hz1_563 => 0b000_1001,
            OutputDataRate::Hz3_125 => 0b000_1010,
            OutputDataRate::Hz6_25 => 0b000_1011,
            OutputDataRate::Hz12_5 => 0b000_0000,
            OutputDataRate::Hz25 => 0b000_0001,
            OutputDataRate::Hz50 => 0b000_0010,
            OutputDataRate::Hz100 => 0b000_0011,
            OutputDataRate::Hz200 => 0b000_0100,
            OutputDataRate::Hz400 => 0b000_0101,
            OutputDataRate::Hz800 => 0b000_0110,
            OutputDataRate::Hz1600 => 0b000_0111,
        };
        let mut new_ctrl1 = self.ctrl1;
        match self.prepare_ctrl1_to_change_settings() {
            Ok(()) => {},
            Err(e) => {
                return Err(e);
            },
        }
        match self.write_register(regs::DATA_CTRL, config) {
            Ok(()) => {},
            Err(e) => {
                return Err(e);
            },
        }
        self.data_ctrl = config;
        let needs_full_power = matches!(
            odr,
            OutputDataRate::Hz400 | OutputDataRate::Hz800 | OutputDataRate::Hz1600
        );
        if needs_full_power {
            new_ctrl1 = new_ctrl1.with_high(regs::RES);
        }
        if self.ctrl1.bits != new_ctrl1.bits {
            self.update_ctrl1(new_ctrl1)
        } else {
            Ok(())
        }
    }

    /// Enable new acceleration data ready interrupt.
    pub fn enable_data_ready_interrupt(&mut self) -> (r: Result<(), Error<I2C::BusError>>)
        ensures
            prepared_ctrl1_update(old(self)@, final(self)@, old(self)@.ctrl1 | regs::DRDYE, r),
    {
        let config = self.ctrl1.with_high(regs::DRDYE);
        match self.prepare_ctrl1_to_change_settings() {
            Ok(()) => {},
            Err(e) => {
                return Err(e);
            },
        }
        self.update_ctrl1(config)
    }

    /// Disable new acceleration data ready interrupt.
    pub fn disable_data_ready_interrupt(&mut self) -> (r: Result<(), Error<I2C::BusError>>)
        ensures
            prepared_ctrl1_update(old(self)@, final(self)@, old(self)@.ctrl1 & !regs::DRDYE, r),
    {
        let config = self.ctrl1.with_low(regs::DRDYE);
        match self.prepare_ctrl1_to_change_settings() {
            Ok(()) => {},
            Err(e) => {
                return Err(e);
            },
        }
        self.update_ctrl1(config)
    }

    /// Disable wake-up motion detected interrupt.
    pub fn disable_wake_up_interrupt(&mut self) -> (r: Result<(), Error<I2C::BusError>>)
        ensures
            prepared_ctrl1_update(old(self)@, final(self)@, old(self)@.ctrl1 & !regs::WUFE, r),
    {
        let config = self.ctrl1.with_low(regs::WUFE);
        match self.prepare_ctrl1_to_change_settings() {
            Ok(()) => {},
            Err(e) => {
                return Err(e);
            },
        }
        self.update_ctrl1(config)
    }

    /// Check if any interrupt has happened.
    pub fn has_interrupt_happened(&mut self) -> (r: Result<bool, Error<I2C::BusError>>)
        ensures
            match r {
                Ok(b) => exists|d: u8|
                    #![auto]
                    b == (d & regs::INT != 0) && final(self)@ == old(self)@.after_read(
                        regs::STATUS,
                        seq![d],
                    ),
                Err(e) => e is I2C && final(self)@ == old(self)@,
            },
    {
        let status = match self.read_register(regs::STATUS) {
            Ok(v) => v,
            Err(e) => {
                return Err(e);
            },
        };
        let b = (status & regs::INT) != 0;
        proof {
            assert(b == (status & regs::INT != 0) && self@ == old(self)@.after_read(
                regs::STATUS,
                seq![status],
            ));
        }
        Ok(b)
    }

    /// Read interrupt source information.
    pub fn read_interrupt_info(&mut self) -> (r: Result<InterruptInfo, Error<I2C::BusError>>)
        ensures
            match r {
                Ok(info) => exists|d: Seq<u8>|
                    #![auto]
                    d.len() == 2 && info == interrupt_info_from(d[0], d[1]) && final(self)@ == old(
                        self,
                    )@.after_read(regs::INT_SOURCE1, d),
                Err(e) => e is I2C && final(self)@ == old(self)@,
            },
    {
        let data = match self.i2c.read_registers(self.address, regs::INT_SOURCE1, 2) {
            Ok(d) => d,
            Err(e) => {
                return Err(Error::I2C(e));
            },
        };
        let info = InterruptInfo {
            data_ready: (data[0] & regs::DRDY) != 0,
            wake_up: (data[0] & regs::WUFS) != 0,
            wake_up_x_negative: (data[1] & regs::XNWU) != 0,
            wake_up_x_positive: (data[1] & regs::XPWU) != 0,
            wake_up_y_negative: (data[1] & regs::YNWU) != 0,
            wake_up_y_positive: (data[1] & regs::YPWU) != 0,
            wake_up_z_negative: (data[1] & regs::ZNWU) != 0,
            wake_up_z_positive: (data[1] & regs::ZPWU) != 0,
        };
        proof {
            assert(data@.len() == 2 && info == interrupt_info_from(data@[0], data@[1]) && self@
                == old(self)@.after_read(regs::INT_SOURCE1, data@));
        }
        Ok(info)
    }

    /// Clear interrupts.
    ///
    /// This clears all interrupt source registers and changes the
    /// physical interrupt pin to its inactive state; per the datasheet
    /// this is done by reading the latch release register and discarding
    /// the value.
    pub fn clear_interrupts(&mut self) -> (r: Result<(), Error<I2C::BusError>>)
        ensures
            match r {
                Ok(()) => exists|d: u8|
                    #![auto]
                    final(self)@ == old(self)@.after_read(regs::INT_REL, seq![d]),
                Err(e) => e is I2C && final(self)@ == old(self)@,
            },
    {
        let released = match self.read_register(regs::INT_REL) {
            Ok(v) => v,
            Err(e) => {
                return Err(e);
            },
        };
        proof {
            assert(self@ == old(self)@.after_read(regs::INT_REL, seq![released]));
        }
        Ok(())
    }

    /// Enable the MEMS self-test function.
    pub fn enable_mems_self_test(&mut self) -> (r: Result<(), Error<I2C::BusError>>)
        ensures
            match r {
                Ok(()) => final(self)@ == old(self)@.after_plain_write(regs::SELF_TEST, 0xCA),
                Err(e) => e is I2C && final(self)@ == old(self)@,
            },
    {
        self.write_register(regs::SELF_TEST, 0xCA)
    }

    /// Disable the MEMS self-test function.
    pub fn disable_mems_self_test(&mut self) -> (r: Result<(), Error<I2C::BusError>>)
        ensures
            match r {
                Ok(()) => final(self)@ == old(self)@.after_plain_write(regs::SELF_TEST, 0x00),
                Err(e) => e is I2C && final(self)@ == old(self)@,
            },
    {
        self.write_register(regs::SELF_TEST, 0x00)
    }

    /// Read unscaled acceleration sensor data, decoded with the sample
    /// width the current configuration selects.
    pub fn read_unscaled(&mut self) -> (r: Result<UnscaledMeasurement, Error<I2C::BusError>>)
        ensures
            match r {
                Ok(m) => exists|d: Seq<u8>|
                    #![auto]
                    d.len() == 6 && m == decode_unscaled(old(self)@.ctrl1, d) && final(self)@
                        == old(self)@.after_read(regs::XOUT_L, d),
                Err(e) => e is I2C && final(self)@ == old(self)@,
            },
    {
        let data = match self.i2c.read_registers(self.address, regs::XOUT_L, 6) {
            Ok(d) => d,
            Err(e) => {
                return Err(Error::I2C(e));
            },
        };
        let m = match self.get_measurement_bits() {
            MeasurementBits::_8bit => convert_8bit(data[0], data[2], data[4]),
            MeasurementBits::_12bit => convert_12bit(
                word_from(data[0], data[1]),
                word_from(data[2], data[3]),
                word_from(data[4], data[5]),
            ),
            MeasurementBits::_14bit => convert_14bit(
                word_from(data[0], data[1]),
                word_from(data[2], data[3]),
                word_from(data[4], data[5]),
            ),
        };
        proof {
            assert(data@.len() == 6 && m == decode_unscaled(old(self)@.ctrl1, data@) && self@
                == old(self)@.after_read(regs::XOUT_L, data@));
        }
        Ok(m)
    }

    /// The sample width the current CTRL1 shadow selects.
    fn get_measurement_bits(&self) -> (r: MeasurementBits)
        ensures
            r == MeasurementBits::spec_from_ctrl1(self@.ctrl1),
    {
        let is_low_res = !self.ctrl1.is_high(regs::RES);
        if is_low_res {
            MeasurementBits::_8bit
        } else {
            let on_full_power = self.ctrl1.is_high(regs::GSEL0) && self.ctrl1.is_high(
                regs::GSEL1,
            );
            if on_full_power {
                MeasurementBits::_14bit
            } else {
                MeasurementBits::_12bit
            }
        }
    }

    /// Perform software reset.
    ///
    /// This is a non-blocking, pollable operation: every call reads the
    /// device-side reset-status bit and reports `ResetStatus::InProgress`
    /// until the call that first observes completion of a triggered reset
    /// reports `ResetStatus::Done`. The first call with no reset pending
    /// issues the reset command and returns the cached configuration to
    /// its power-on defaults.
    pub fn reset(&mut self) -> (r: Result<ResetStatus, Error<I2C::BusError>>)
        ensures
            reset_rel(old(self)@, final(self)@, r),
    {
        let ctrl2 = match self.read_register(regs::CTRL2) {
            Ok(v) => v,
            Err(e) => {
                return Err(e);
            },
        };
        if (ctrl2 & regs::SRST) != 0 {
            proof {
                assert(ctrl2 & regs::SRST != 0 && self@ == old(self)@.after_read(
                    regs::CTRL2,
                    seq![ctrl2],
                ));
            }
            Ok(ResetStatus::InProgress)
        } else if self.was_reset_started {
            self.was_reset_started = false;
            proof {
                assert(ctrl2 & regs::SRST == 0 && old(self)@.reset_started && self@ == (DevView {
                    reset_started: false,
                    ..old(self)@.after_read(regs::CTRL2, seq![ctrl2])
                }));
            }
            Ok(ResetStatus::Done)
        } else {
            match self.write_register(regs::CTRL2, regs::SRST) {
                Ok(()) => {},
                Err(e) => {
                    proof {
                        assert(ctrl2 & regs::SRST == 0 && !old(self)@.reset_started && self@
                            == old(self)@.after_read(regs::CTRL2, seq![ctrl2]));
                    }
                    return Err(e);
                },
            }
            self.ctrl1 = Config { bits: 0 };
            self.ctrl2 = Config { bits: 0 };
            self.int_ctrl1 = Config { bits: regs::INT_CTRL1_DEFAULT };
            self.data_ctrl = regs::DATA_CTRL_DEFAULT;
            self.was_reset_started = true;
            proof {
                assert(ctrl2 & regs::SRST == 0 && !old(self)@.reset_started && self@
                    == reset_triggered(old(self)@, ctrl2));
            }
            Ok(ResetStatus::InProgress)
        }
    }

    /// Perform a digital communication self-test.
    pub fn communication_self_test(&mut self) -> (r: Result<(), Error<I2C::BusError>>)
        ensures
            comm_self_test_rel(old(self)@, final(self)@, r),
    {
        let resp = match self.read_register(regs::DCST_RESP) {
            Ok(v) => v,
            Err(e) => {
                return Err(e);
            },
        };
        if resp != 0x55 {
            proof {
                assert(resp != 0x55 && self@ == old(self)@.after_read(
                    regs::DCST_RESP,
                    seq![resp],
                ));
            }
            return Err(Error::SelfTestError);
        }
        let ctrl2 = self.ctrl2.with_high(regs::DCST);
        match self.write_register(regs::CTRL2, ctrl2.bits) {
            Ok(()) => {},
            Err(e) => {
                return Err(e);
            },
        }
        let resp = match self.read_register(regs::DCST_RESP) {
            Ok(v) => v,
            Err(e) => {
                return Err(e);
            },
        };
        if resp != 0xAA {
            proof {
                assert(resp != 0xAA && self@ == old(self)@.after_read(
                    regs::DCST_RESP,
                    seq![0x55u8],
                ).after_plain_write(regs::CTRL2, old(self)@.ctrl2 | regs::DCST).after_read(
                    regs::DCST_RESP,
                    seq![resp],
                ));
            }
            return Err(Error::SelfTestError);
        }
        let ctrl2 = match self.read_register(regs::CTRL2) {
            Ok(v) => v,
            Err(e) => {
                return Err(e);
            },
        };
        if (ctrl2 & regs::DCST) != 0 {
            proof {
                assert(ctrl2 & regs::DCST != 0 && self@ == old(self)@.after_read(
                    regs::DCST_RESP,
                    seq![0x55u8],
                ).after_plain_write(regs::CTRL2, old(self)@.ctrl2 | regs::DCST).after_read(
                    regs::DCST_RESP,
                    seq![0xAAu8],
                ).after_read(regs::CTRL2, seq![ctrl2]));
            }
            return Err(Error::SelfTestError);
        }
        let resp = match self.read_register(regs::DCST_RESP) {
            Ok(v) => v,
            Err(e) => {
                proof {
                    assert(ctrl2 & regs::DCST == 0 && self@ == old(self)@.after_read(
                        regs::DCST_RESP,
                        seq![0x55u8],
                    ).after_plain_write(regs::CTRL2, old(self)@.ctrl2 | regs::DCST).after_read(
                        regs::DCST_RESP,
                        seq![0xAAu8],
                    ).after_read(regs::CTRL2, seq![ctrl2]));
                }
                return Err(e);
            },
        };
        if resp != 0x55 {
            proof {
                assert(ctrl2 & regs::DCST == 0 && resp != 0x55 && self@ == old(self)@.after_read(
                    regs::DCST_RESP,
                    seq![0x55u8],
                ).after_plain_write(regs::CTRL2, old(self)@.ctrl2 | regs::DCST).after_read(
                    regs::DCST_RESP,
                    seq![0xAAu8],
                ).after_read(regs::CTRL2, seq![ctrl2]).after_read(regs::DCST_RESP, seq![resp]));
            }
            return Err(Error::SelfTestError);
        }
        proof {
            assert(ctrl2 & regs::DCST == 0 && self@ == old(self)@.after_read(
                regs::DCST_RESP,
                seq![0x55u8],
            ).after_plain_write(regs::CTRL2, old(self)@.ctrl2 | regs::DCST).after_read(
                regs::DCST_RESP,
                seq![0xAAu8],
            ).after_read(regs::CTRL2, seq![ctrl2]).after_read(regs::DCST_RESP, seq![0x55u8]));
        }
        Ok(())
    }

    /// Enable the physical interrupt pin.
    pub fn enable_interrupt_pin(&mut self) -> (r: Result<(), Error<I2C::BusError>>)
        ensures
            int_ctrl1_update_rel(old(self)@, final(self)@, old(self)@.int_ctrl1 | regs::IEN, r),
    {
        let config = self.int_ctrl1.with_high(regs::IEN);
        self.config_interrupt_pin(config)
    }

    /// Disable the physical interrupt pin.
    pub fn disable_interrupt_pin(&mut self) -> (r: Result<(), Error<I2C::BusError>>)
        ensures
            int_ctrl1_update_rel(old(self)@, final(self)@, old(self)@.int_ctrl1 & !regs::IEN, r),
    {
        let config = self.int_ctrl1.with_low(regs::IEN);
        self.config_interrupt_pin(config)
    }

    /// Set the physical interrupt pin polarity.
    pub fn set_interrupt_pin_polarity(&mut self, polarity: InterruptPinPolarity) -> (r: Result<
        (),
        Error<I2C::BusError>,
    >)
        ensures
            int_ctrl1_update_rel(
                old(self)@,
                final(self)@,
                match polarity {
                    InterruptPinPolarity::ActiveHigh => old(self)@.int_ctrl1 | regs::IEA,
                    InterruptPinPolarity::ActiveLow => old(self)@.int_ctrl1 & !regs::IEA,
                },
                r,
            ),
    {
        let config = match polarity {
            InterruptPinPolarity::ActiveHigh => self.int_ctrl1.with_high(regs::IEA),
            InterruptPinPolarity::ActiveLow => self.int_ctrl1.with_low(regs::IEA),
        };
        self.config_interrupt_pin(config)
    }

    /// Set the physical interrupt pin latching behavior.
    pub fn set_interrupt_pin_latching(&mut self, latching: InterruptPinLatching) -> (r: Result<
        (),
        Error<I2C::BusError>,
    >)
        ensures
            int_ctrl1_update_rel(
                old(self)@,
                final(self)@,
                match latching {
                    InterruptPinLatching::NonLatching => old(self)@.int_ctrl1 | regs::IEL,
                    InterruptPinLatching::Latching => old(self)@.int_ctrl1 & !regs::IEL,
                },
                r,
            ),
    {
        let config = match latching {
            InterruptPinLatching::NonLatching => self.int_ctrl1.with_high(regs::IEL),
            InterruptPinLatching::Latching => self.int_ctrl1.with_low(regs::IEL),
        };
        self.config_interrupt_pin(config)
    }

    /// Power down, commit a new INT_CTRL1 value, and restore the previous
    /// CTRL1 value where the power-down changed it.
    fn config_interrupt_pin(&mut self, config: Config) -> (r: Result<(), Error<I2C::BusError>>)
        ensures
            int_ctrl1_update_rel(old(self)@, final(self)@, config.bits, r),
    {
        let previous_ctrl1 = self.ctrl1;
        match self.prepare_ctrl1_to_change_settings() {
            Ok(()) => {},
            Err(e) => {
                return Err(e);
            },
        }
        match self.write_register(regs::INT_CTRL1, config.bits) {
            Ok(()) => {},
            Err(e) => {
                return Err(e);
            },
        }
        self.int_ctrl1 = config;
        if previous_ctrl1.bits != self.ctrl1.bits {
            self.update_ctrl1(previous_ctrl1)
        } else {
            Ok(())
        }
    }

    /// Write a register and on success adopt the value as the new CTRL1
    /// shadow.
    fn update_ctrl1(&mut self, value: Config) -> (r: Result<(), Error<I2C::BusError>>)
        ensures
            direct_ctrl1_update(old(self)@, final(self)@, value.bits, r),
    {
        match self.write_register(regs::CTRL1, value.bits) {
            Ok(()) => {
                self.ctrl1 = value;
                Ok(())
            },
            Err(e) => Err(e),
        }
    }

    /// Ensure PC1 in CTRL1 is set to 0 before changing settings.
    fn prepare_ctrl1_to_change_settings(&mut self) -> (r: Result<(), Error<I2C::BusError>>)
        ensures
            match r {
                Ok(()) => final(self)@ == old(self)@.after_prepare(),
                Err(e) => e is I2C && final(self)@ == old(self)@,
            },
    {
        self.disable()
    }

    /// Write one byte to a device register, without touching any shadow.
    fn write_register(&mut self, reg: u8, value: u8) -> (r: Result<(), Error<I2C::BusError>>)
        ensures
            match r {
                Ok(()) => final(self)@ == old(self)@.after_plain_write(reg, value),
                Err(e) => e is I2C && final(self)@ == old(self)@,
            },
    {
        match self.i2c.write_register(self.address, reg, value) {
            Ok(()) => Ok(()),
            Err(e) => Err(Error::I2C(e)),
        }
    }

    /// Read one byte from a device register.
    fn read_register(&mut self, reg: u8) -> (r: Result<u8, Error<I2C::BusError>>)
        ensures
            match r {
                Ok(v) => final(self)@ == old(self)@.after_read(reg, seq![v]),
                Err(e) => e is I2C && final(self)@ == old(self)@,
            },
    {
        match self.i2c.read_registers(self.address, reg, 1) {
            Ok(data) => {
                let v = data[0];
                proof {
                    assert(data@ =~= seq![v]);
                }
                Ok(v)
            },
            Err(e) => Err(Error::I2C(e)),
        }
    }
}

/// The scaled measurement that six data register bytes decode to under a
/// CTRL1 value, on device variant `IC`: the unscaled samples multiplied
/// by the exact conversion factor of the configured width and range.
pub open spec fn spec_scaled<IC: ScaledDevice>(ctrl1: u8, data: Seq<u8>) -> Measurement {
    let um = decode_unscaled(ctrl1, data);
    let factor = scale_factor_q12(
        IC::range_g(GScaleConfig::spec_from_ctrl1(ctrl1)),
        MeasurementBits::spec_from_ctrl1(ctrl1),
    );
    Measurement {
        x: (um.x * factor) as i32,
        y: (um.y * factor) as i32,
        z: (um.z * factor) as i32,
    }
}

impl WakeUpTriggerMotion {
    /// The INT_CTRL2 mask this trigger selection stands for.
    fn get_int_ctrl2(self) -> (r: u8)
        ensures
            r == motion_mask(self),
    {
        let mut int_ctrl2: u8 = 0;
        if self.x_negative {
            int_ctrl2 = int_ctrl2 | regs::XNWU;
        }
        if self.x_positive {
            int_ctrl2 = int_ctrl2 | regs::XPWU;
        }
        if self.y_negative {
            int_ctrl2 = int_ctrl2 | regs::YNWU;
        }
        if self.y_positive {
            int_ctrl2 = int_ctrl2 | regs::YPWU;
        }
        if self.z_negative {
            int_ctrl2 = int_ctrl2 | regs::ZNWU;
        }
        if self.z_positive {
            int_ctrl2 = int_ctrl2 | regs::ZPWU;
        }
        int_ctrl2
    }
}

impl<I2C: I2cBus, IC: ScaledDevice> Kxcj9<I2C, IC> {
    /// Read acceleration sensor data scaled to the configured G range, in
    /// units of 1/4096 g.
    pub fn read(&mut self) -> (r: Result<Measurement, Error<I2C::BusError>>)
        ensures
            match r {
                Ok(m) => exists|d: Seq<u8>|
                    #![auto]
                    d.len() == 6 && m == spec_scaled::<IC>(old(self)@.ctrl1, d) && final(self)@
                        == old(self)@.after_read(regs::XOUT_L, d),
                Err(e) => e is I2C && final(self)@ == old(self)@,
            },
    {
        let unscaled = match self.read_unscaled() {
            Ok(m) => m,
            Err(e) => {
                return Err(e);
            },
        };
        let ghost d = choose|d: Seq<u8>|
            #![auto]
            d.len() == 6 && unscaled == decode_unscaled(old(self)@.ctrl1, d) && self@ == old(
                self,
            )@.after_read(regs::XOUT_L, d);
        let bits = self.get_measurement_bits();
        let scale_config = GScaleConfig::from_ctrl1(self.ctrl1);
        let m = IC::get_scaled(unscaled, bits, scale_config);
        proof {
            assert(d.len() == 6 && m == spec_scaled::<IC>(old(self)@.ctrl1, d) && self@ == old(
                self,
            )@.after_read(regs::XOUT_L, d));
        }
        Ok(m)
    }

    /// Configure and enable wake-up motion detected interrupt.
    ///
    /// A zero fault count or a threshold outside the variant's supported
    /// range is rejected with `Error::InvalidSetting` before anything is
    /// written to the device.
    pub fn enable_wake_up_interrupt(&mut self, config: WakeUpInterruptConfig) -> (r: Result<
        (),
        Error<I2C::BusError>,
    >)
        ensures
            enable_wake_up_rel::<IC, I2C::BusError>(old(self)@, final(self)@, config, r),
    {
        if config.fault_count == 0 {
            return Err(Error::InvalidSetting);
        }
        let threshold = match IC::get_wake_up_threshold::<I2C::BusError>(config.threshold) {
            Ok(t) => t,
            Err(e) => {
                return Err(e);
            },
        };
        let int_ctrl2 = config.trigger_motion.get_int_ctrl2();
        let ctrl2 = self.ctrl2.with_low(0b0000_0111);
        let ctrl2 = match config.data_rate {
            WakeUpOutputDataRate::Hz0_781 => ctrl2.with_high(0),
            WakeUpOutputDataRate::Hz1_563 => ctrl2.with_high(1),
            WakeUpOutputDataRate::Hz3_125 => ctrl2.with_high(2),
            WakeUpOutputDataRate::Hz6_25 => ctrl2.with_high(3),
            WakeUpOutputDataRate::Hz12_5 => ctrl2.with_high(4),
            WakeUpOutputDataRate::Hz25 => ctrl2.with_high(5),
            WakeUpOutputDataRate::Hz50 => ctrl2.with_high(6),
            WakeUpOutputDataRate::Hz100 => ctrl2.with_high(7),
        };
        let ctrl1 = self.ctrl1.with_high(regs::WUFE);
        match self.prepare_ctrl1_to_change_settings() {
            Ok(()) => {},
            Err(e) => {
                return Err(e);
            },
        }
        match self.write_register(regs::INT_CTRL2, int_ctrl2) {
            Ok(()) => {},
            Err(e) => {
                return Err(e);
            },
        }
        match self.write_register(regs::CTRL2, ctrl2.bits) {
            Ok(()) => {},
            Err(e) => {
                return Err(e);
            },
        }
        self.ctrl2 = ctrl2;
        match self.write_register(regs::WAKEUP_TIMER, config.fault_count) {
            Ok(()) => {},
            Err(e) => {
                return Err(e);
            },
        }
        match self.write_register(regs::WAKEUP_THRESHOLD, threshold) {
            Ok(()) => {},
            Err(e) => {
                return Err(e);
            },
        }
        self.update_ctrl1(ctrl1)
    }
}

/// Assemble the little-endian word of a register pair.
fn word_from(lo: u8, hi: u8) -> (r: u16)
    ensures
        r == word_le(lo, hi),
{
    (lo as u16) + (hi as u16) * 256
}

impl<I2C: I2cBus> Kxcj9<I2C, ic::G16Device> {
    /// Set G scale.
    pub fn set_scale(&mut self, scale: GScale16) -> (r: Result<(), Error<I2C::BusError>>)
        ensures
            prepared_ctrl1_update(
                old(self)@,
                final(self)@,
                gscale16_target(old(self)@.ctrl1, scale),
                r,
            ),
    {
        let config = match scale {
            GScale16::G4 => self.ctrl1.with_low(regs::GSEL0).with_low(regs::GSEL1),
            GScale16::G8 => self.ctrl1.with_high(regs::GSEL0).with_low(regs::GSEL1),
            GScale16::G16 => self.ctrl1.with_low(regs::GSEL0).with_high(regs::GSEL1),
            GScale16::G16FP => self.ctrl1.with_high(regs::RES).with_high(regs::GSEL0).with_high(
                regs::GSEL1,
            ),
        };
        match self.prepare_ctrl1_to_change_settings() {
            Ok(()) => {},
            Err(e) => {
                return Err(e);
            },
        }
        self.update_ctrl1(config)
    }
}

impl<I2C: I2cBus> Kxcj9<I2C, ic::G8Device> {
    /// Set G scale.
    pub fn set_scale(&mut self, scale: GScale8) -> (r: Result<(), Error<I2C::BusError>>)
        ensures
            prepared_ctrl1_update(
                old(self)@,
                final(self)@,
                gscale8_target(old(self)@.ctrl1, scale),
                r,
            ),
    {
        let config = match scale {
            GScale8::G2 => self.ctrl1.with_low(regs::GSEL0).with_low(regs::GSEL1),
            GScale8::G4 => self.ctrl1.with_high(regs::GSEL0).with_low(regs::GSEL1),
            GScale8::G8 => self.ctrl1.with_low(regs::GSEL0).with_high(regs::GSEL1),
            GScale8::G8FP => self.ctrl1.with_high(regs::RES).with_high(regs::GSEL0).with_high(
                regs::GSEL1,
            ),
        };
        match self.prepare_ctrl1_to_change_settings() {
            Ok(()) => {},
            Err(e) => {
                return Err(e);
            },
        }
        self.update_ctrl1(config)
    }
}

} // verus!
