//! Platform-agnostic driver for the KXCJ9 and KXCJB ultra-low-power
//! tri-axis accelerometers (up to +/-16g), talking over a two-wire
//! register-addressed bus.
//!
//! The driver allows you to:
//! - Enable/disable the device.
//! - Read the acceleration measurement, scaled or unscaled.
//! - Set resolution, output data rate and +/- G range.
//! - Read the `WHO_AM_I` register.
//! - Perform a software reset (non-blocking, polled).
//! - Run the communication self-test and the MEMS self-test.
//! - Configure the wake-up motion interrupt, the data-ready interrupt
//!   and the physical interrupt pin, and read interrupt status.
//!
//! The bus itself is abstracted by the [`I2cBus`] trait; any blocking
//! two-wire implementation can be plugged in, and a scripted in-memory
//! bus is provided for tests and simulation.

mod bus;
mod conversion;
pub mod ic;
mod kxcj9;
mod laws;
mod private;
pub mod regs;
mod scaled_device;
mod types;

pub use bus::{BusOp, BusTx, I2cBus, ScriptBus, ScriptMismatch};
pub use kxcj9::{
    comm_self_test_rel, decode_unscaled, direct_ctrl1_update, enable_wake_up_rel,
    gscale8_target, gscale16_target, initial_dev_view, int_ctrl1_update_rel,
    interrupt_info_from, motion_mask, odr_code_is_high_speed, odr_is_high_speed,
    prepared_ctrl1_update, reset_rel, reset_triggered, set_output_data_rate_rel,
    set_resolution_rel, spec_odr_code, spec_scaled, spec_wake_odr_code, wake_up_config_valid,
    word_le, DevView, GScaleConfig, Kxcj9, MeasurementBits,
};
pub use scaled_device::{scale_factor_q12, ScaledDevice};
pub use laws::{
    lemma_enable_wake_up_preserves_power, lemma_high_speed_forces_high_resolution,
    lemma_high_speed_rates, lemma_interrupt_pin_preserves_power,
    lemma_interrupt_toggle_preserves_power, lemma_reset_run, lemma_reset_step,
    lemma_scale_near_full_g8, lemma_scale_near_full_g16, lemma_scale_zero,
    lemma_set_output_data_rate_preserves_power, lemma_set_resolution_preserves_power,
    lemma_set_scale8_preserves_power, lemma_set_scale16_preserves_power,
    lemma_wake_up_rejects_invalid, reset_command_count,
};
pub use conversion::{convert_8bit, convert_12bit, convert_14bit};
pub use conversion::{sign_extended_8, sign_extended_12, sign_extended_14};
pub use types::{
    Error, GScale16, GScale8, InterruptInfo, InterruptPinLatching, InterruptPinPolarity,
    Measurement, OutputDataRate, ResetStatus, Resolution, SlaveAddr, UnscaledMeasurement,
    WakeUpInterruptConfig, WakeUpOutputDataRate, WakeUpTriggerMotion,
};
