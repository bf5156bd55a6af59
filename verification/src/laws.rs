//! Driver-wide laws: properties that tie the operations' contracts
//! together, stated over the same relations the public methods ensure
//! and proved once and for all.

use vstd::prelude::*;
use crate::bus::BusOp;
use crate::kxcj9::{
    enable_wake_up_rel, gscale8_target, gscale16_target, int_ctrl1_update_rel,
    odr_code_is_high_speed, odr_is_high_speed, prepared_ctrl1_update, reset_rel,
    reset_triggered, set_output_data_rate_rel, set_resolution_rel, DevView, GScaleConfig,
    MeasurementBits,
};
use crate::regs;
use crate::scaled_device::{scale_factor_q12, ScaledDevice};
use crate::types::{
    Error, GScale16, GScale8, Measurement, OutputDataRate, ResetStatus, Resolution,
    UnscaledMeasurement, WakeUpInterruptConfig,
};

verus! {

/// Scaling is exact at zero: a measurement whose raw samples are all
/// zero scales to exactly zero acceleration, whatever the width, range
/// and device variant.
pub proof fn lemma_scale_zero<IC: ScaledDevice>(
    m: Measurement,
    unscaled: UnscaledMeasurement,
    bits: MeasurementBits,
    scale_config: GScaleConfig,
)
    requires
        unscaled.x == 0 && unscaled.y == 0 && unscaled.z == 0,
        m.x == unscaled.x * scale_factor_q12(IC::range_g(scale_config), bits),
        m.y == unscaled.y * scale_factor_q12(IC::range_g(scale_config), bits),
        m.z == unscaled.z * scale_factor_q12(IC::range_g(scale_config), bits),
    ensures
        m.x == 0 && m.y == 0 && m.z == 0,
{
}

/// On the +/-8g variant, the largest positive sample scales to within
/// 0.1 g (409 units of 1/4096 g) of the configured full-scale range, on
/// every width and range combination.
pub proof fn lemma_scale_near_full_g8(bits: MeasurementBits, scale_config: GScaleConfig)
    ensures
        ({
            let range = <crate::ic::G8Device as ScaledDevice>::range_g(scale_config);
            let full = (bits.spec_half_scale_span() - 1) * scale_factor_q12(range, bits);
            range * 4096 - 409 <= full < range * 4096
        }),
{
    match bits {
        MeasurementBits::_8bit => match scale_config {
            GScaleConfig::_0 => assert(scale_factor_q12(2, MeasurementBits::_8bit) == 64),
            GScaleConfig::_1 => assert(scale_factor_q12(4, MeasurementBits::_8bit) == 128),
            GScaleConfig::_2 => assert(scale_factor_q12(8, MeasurementBits::_8bit) == 256),
            GScaleConfig::_3 => assert(scale_factor_q12(8, MeasurementBits::_8bit) == 256),
        },
        MeasurementBits::_12bit => match scale_config {
            GScaleConfig::_0 => assert(scale_factor_q12(2, MeasurementBits::_12bit) == 4),
            GScaleConfig::_1 => assert(scale_factor_q12(4, MeasurementBits::_12bit) == 8),
            GScaleConfig::_2 => assert(scale_factor_q12(8, MeasurementBits::_12bit) == 16),
            GScaleConfig::_3 => assert(scale_factor_q12(8, MeasurementBits::_12bit) == 16),
        },
        MeasurementBits::_14bit => match scale_config {
            GScaleConfig::_0 => assert(scale_factor_q12(2, MeasurementBits::_14bit) == 1),
            GScaleConfig::_1 => assert(scale_factor_q12(4, MeasurementBits::_14bit) == 2),
            GScaleConfig::_2 => assert(scale_factor_q12(8, MeasurementBits::_14bit) == 4),
            GScaleConfig::_3 => assert(scale_factor_q12(8, MeasurementBits::_14bit) == 4),
        },
    }
}

/// On the +/-16g variant the same bound holds, except in the one
/// combination of 8-bit samples with the 16g range, where the coarse
/// sample step leaves a gap of 0.125 g.
pub proof fn lemma_scale_near_full_g16(bits: MeasurementBits, scale_config: GScaleConfig)
    requires
        !(bits is _8bit && (scale_config is _2 || scale_config is _3)),
    ensures
        ({
            let range = <crate::ic::G16Device as ScaledDevice>::range_g(scale_config);
            let full = (bits.spec_half_scale_span() - 1) * scale_factor_q12(range, bits);
            range * 4096 - 409 <= full < range * 4096
        }),
{
    match bits {
        MeasurementBits::_8bit => match scale_config {
            GScaleConfig::_0 => assert(scale_factor_q12(4, MeasurementBits::_8bit) == 128),
            GScaleConfig::_1 => assert(scale_factor_q12(8, MeasurementBits::_8bit) == 256),
            GScaleConfig::_2 => {},
            GScaleConfig::_3 => {},
        },
        MeasurementBits::_12bit => match scale_config {
            GScaleConfig::_0 => assert(scale_factor_q12(4, MeasurementBits::_12bit) == 8),
            GScaleConfig::_1 => assert(scale_factor_q12(8, MeasurementBits::_12bit) == 16),
            GScaleConfig::_2 => assert(scale_factor_q12(16, MeasurementBits::_12bit) == 32),
            GScaleConfig::_3 => assert(scale_factor_q12(16, MeasurementBits::_12bit) == 32),
        },
        MeasurementBits::_14bit => match scale_config {
            GScaleConfig::_0 => assert(scale_factor_q12(4, MeasurementBits::_14bit) == 2),
            GScaleConfig::_1 => assert(scale_factor_q12(8, MeasurementBits::_14bit) == 4),
            GScaleConfig::_2 => assert(scale_factor_q12(16, MeasurementBits::_14bit) == 8),
            GScaleConfig::_3 => assert(scale_factor_q12(16, MeasurementBits::_14bit) == 8),
        },
    }
}

/// The high-speed data rate codes are exactly those of the 400, 800 and
/// 1600 Hz rates.
pub proof fn lemma_high_speed_rates(odr: OutputDataRate)
    ensures
        odr_is_high_speed(odr) <==> (odr is Hz400 || odr is Hz800 || odr is Hz1600),
{
}

/// Setting a high-speed output data rate always results in high
/// resolution afterward, regardless of the prior resolution: a
/// subsequent read decodes 12- or 14-bit samples, never 8-bit ones.
pub proof fn lemma_high_speed_forces_high_resolution<E>(
    pre: DevView,
    post: DevView,
    odr: OutputDataRate,
    r: Result<(), Error<E>>,
)
    requires
        set_output_data_rate_rel(pre, post, odr, r),
        odr_is_high_speed(odr),
        r is Ok,
    ensures
        post.ctrl1 & regs::RES != 0,
        !(MeasurementBits::spec_from_ctrl1(post.ctrl1) is _8bit),
{
    let a = pre.ctrl1;
    assert((a | regs::RES) & regs::RES != 0) by (bit_vector);
}

/// None of the CTRL1 values the settings changes commit touches the
/// power bit.
proof fn lemma_pc1_untouched(a: u8)
    by (bit_vector)
    ensures
        (a | regs::RES) & regs::PC1 == a & regs::PC1,
        (a & !regs::RES) & regs::PC1 == a & regs::PC1,
        (a | regs::DRDYE) & regs::PC1 == a & regs::PC1,
        (a & !regs::DRDYE) & regs::PC1 == a & regs::PC1,
        (a | regs::WUFE) & regs::PC1 == a & regs::PC1,
        (a & !regs::WUFE) & regs::PC1 == a & regs::PC1,
        (a & !regs::GSEL0 & !regs::GSEL1) & regs::PC1 == a & regs::PC1,
        ((a | regs::GSEL0) & !regs::GSEL1) & regs::PC1 == a & regs::PC1,
        ((a & !regs::GSEL0) | regs::GSEL1) & regs::PC1 == a & regs::PC1,
        (a | regs::RES | regs::GSEL0 | regs::GSEL1) & regs::PC1 == a & regs::PC1,
        (a & !regs::PC1) & regs::PC1 == 0,
{
}

/// A successful `set_resolution` on an enabled device leaves it enabled:
/// the committed CTRL1 value keeps the power bit.
pub proof fn lemma_set_resolution_preserves_power<E>(
    pre: DevView,
    post: DevView,
    resolution: Resolution,
    r: Result<(), Error<E>>,
)
    requires
        set_resolution_rel(pre, post, resolution, r),
        r is Ok,
        pre.ctrl1 & regs::PC1 != 0,
    ensures
        post.ctrl1 & regs::PC1 != 0,
{
    lemma_pc1_untouched(pre.ctrl1);
    if resolution is Low {
        let d = choose|d: u8|
            #![auto]
            !odr_code_is_high_speed(d) && post == pre.after_read(
                regs::DATA_CTRL,
                seq![d],
            ).after_prepare().after_ctrl1_write(pre.ctrl1 & !regs::RES);
        assert(post.ctrl1 == pre.ctrl1 & !regs::RES);
    }
}

/// A successful `set_output_data_rate` on an enabled device leaves it
/// enabled.
pub proof fn lemma_set_output_data_rate_preserves_power<E>(
    pre: DevView,
    post: DevView,
    odr: OutputDataRate,
    r: Result<(), Error<E>>,
)
    requires
        set_output_data_rate_rel(pre, post, odr, r),
        r is Ok,
        pre.ctrl1 & regs::PC1 != 0,
    ensures
        post.ctrl1 & regs::PC1 != 0,
{
    lemma_pc1_untouched(pre.ctrl1);
}

/// A successful `set_scale` on an enabled +/-8g device leaves it
/// enabled.
pub proof fn lemma_set_scale8_preserves_power<E>(
    pre: DevView,
    post: DevView,
    scale: GScale8,
    r: Result<(), Error<E>>,
)
    requires
        prepared_ctrl1_update(pre, post, gscale8_target(pre.ctrl1, scale), r),
        r is Ok,
        pre.ctrl1 & regs::PC1 != 0,
    ensures
        post.ctrl1 & regs::PC1 != 0,
{
    lemma_pc1_untouched(pre.ctrl1);
}

/// A successful `set_scale` on an enabled +/-16g device leaves it
/// enabled.
pub proof fn lemma_set_scale16_preserves_power<E>(
    pre: DevView,
    post: DevView,
    scale: GScale16,
    r: Result<(), Error<E>>,
)
    requires
        prepared_ctrl1_update(pre, post, gscale16_target(pre.ctrl1, scale), r),
        r is Ok,
        pre.ctrl1 & regs::PC1 != 0,
    ensures
        post.ctrl1 & regs::PC1 != 0,
{
    lemma_pc1_untouched(pre.ctrl1);
}

/// Successfully enabling or disabling the data-ready interrupt, or
/// disabling the wake-up interrupt, on an enabled device leaves it
/// enabled; these are the prepared CTRL1 updates over the DRDYE and
/// WUFE bits.
pub proof fn lemma_interrupt_toggle_preserves_power<E>(
    pre: DevView,
    post: DevView,
    target: u8,
    r: Result<(), Error<E>>,
)
    requires
        prepared_ctrl1_update(pre, post, target, r),
        r is Ok,
        target == pre.ctrl1 | regs::DRDYE || target == pre.ctrl1 & !regs::DRDYE || target
            == pre.ctrl1 & !regs::WUFE,
        pre.ctrl1 & regs::PC1 != 0,
    ensures
        post.ctrl1 & regs::PC1 != 0,
{
    lemma_pc1_untouched(pre.ctrl1);
}

/// A successful `enable_wake_up_interrupt` on an enabled device leaves
/// it enabled.
pub proof fn lemma_enable_wake_up_preserves_power<IC: ScaledDevice, E>(
    pre: DevView,
    post: DevView,
    config: WakeUpInterruptConfig,
    r: Result<(), Error<E>>,
)
    requires
        enable_wake_up_rel::<IC, E>(pre, post, config, r),
        r is Ok,
        pre.ctrl1 & regs::PC1 != 0,
    ensures
        post.ctrl1 & regs::PC1 != 0,
{
    lemma_pc1_untouched(pre.ctrl1);
}

/// A successful interrupt-pin operation on an enabled device leaves it
/// enabled: the previous CTRL1 value is restored.
pub proof fn lemma_interrupt_pin_preserves_power<E>(
    pre: DevView,
    post: DevView,
    target: u8,
    r: Result<(), Error<E>>,
)
    requires
        int_ctrl1_update_rel(pre, post, target, r),
        r is Ok,
    ensures
        post.ctrl1 == pre.ctrl1,
{
}

/// `enable_wake_up_interrupt` rejects exactly the invalid
/// configurations — a zero fault count or an out-of-range threshold —
/// and only then; the rejection issues no bus transaction and changes
/// nothing.
pub proof fn lemma_wake_up_rejects_invalid<IC: ScaledDevice, E>(
    pre: DevView,
    post: DevView,
    config: WakeUpInterruptConfig,
    r: Result<(), Error<E>>,
)
    requires
        enable_wake_up_rel::<IC, E>(pre, post, config, r),
    ensures
        r == Err::<(), Error<E>>(Error::InvalidSetting) <==> !(config.fault_count != 0 && 0
            <= config.threshold <= IC::max_wake_up_threshold_mg()),
        r == Err::<(), Error<E>>(Error::InvalidSetting) ==> post == pre && post.ops == pre.ops,
{
}

/// Count of reset commands addressed to `addr` in a transaction history.
pub open spec fn reset_command_count(ops: Seq<BusOp>, addr: u8) -> int {
    ops.filter(
        |op: BusOp| op == (BusOp::Write { addr, reg: regs::CTRL2, value: regs::SRST }),
    ).len() as int
}

proof fn lemma_reset_command_count_push(ops: Seq<BusOp>, op: BusOp, addr: u8)
    ensures
        reset_command_count(ops.push(op), addr) == reset_command_count(ops, addr) + if op == (
        BusOp::Write { addr, reg: regs::CTRL2, value: regs::SRST }) {
            1int
        } else {
            0
        },
{
    reveal(Seq::filter);
    assert(ops.push(op).drop_last() =~= ops);
}

/// One successful poll of `reset`: how the in-progress flag moves, and
/// that the reset command goes out exactly on the poll that triggers
/// the reset (flag clear and status bit observed clear).
pub proof fn lemma_reset_step<E>(
    pre: DevView,
    post: DevView,
    status: ResetStatus,
    r: Result<ResetStatus, Error<E>>,
)
    requires
        reset_rel(pre, post, r),
        r == Ok::<ResetStatus, Error<E>>(status),
    ensures
        post.address == pre.address,
        status is Done ==> pre.reset_started && !post.reset_started,
        !pre.reset_started ==> status is InProgress,
        pre.reset_started ==> post.reset_started == (status is InProgress),
        reset_command_count(post.ops, pre.address) == reset_command_count(pre.ops, pre.address)
            + if !pre.reset_started && post.reset_started {
            1int
        } else {
            0
        },
{
    if status is Done {
        let c = choose|c: u8|
            #![auto]
            c & regs::SRST == 0 && pre.reset_started && post == (DevView {
                reset_started: false,
                ..pre.after_read(regs::CTRL2, seq![c])
            });
        lemma_reset_command_count_push(pre.ops, pre.read_op(regs::CTRL2, seq![c]), pre.address);
    } else if exists|c: u8|
        #![auto]
        c & regs::SRST != 0 && post == pre.after_read(regs::CTRL2, seq![c]) {
        let c = choose|c: u8|
            #![auto]
            c & regs::SRST != 0 && post == pre.after_read(regs::CTRL2, seq![c]);
        lemma_reset_command_count_push(pre.ops, pre.read_op(regs::CTRL2, seq![c]), pre.address);
    } else {
        let c = choose|c: u8|
            #![auto]
            c & regs::SRST == 0 && !pre.reset_started && post == reset_triggered(pre, c);
        let mid = pre.after_read(regs::CTRL2, seq![c]);
        lemma_reset_command_count_push(pre.ops, pre.read_op(regs::CTRL2, seq![c]), pre.address);
        lemma_reset_command_count_push(
            mid.ops,
            mid.write_op(regs::CTRL2, regs::SRST),
            pre.address,
        );
    }
}

/// A run of successful polls that starts with the in-progress flag set:
/// the polls that still see the reset running write nothing, and the
/// final poll that reports completion writes nothing either and clears
/// the flag.
proof fn lemma_reset_run_started<E>(views: Seq<DevView>, statuses: Seq<ResetStatus>)
    requires
        views.len() == statuses.len() + 1,
        statuses.len() >= 1,
        forall|i: int|
            #![trigger views[i]]
            0 <= i < statuses.len() ==> reset_rel::<E>(views[i], views[i + 1], Ok(statuses[i])),
        views[0].reset_started,
        forall|i: int| #![trigger statuses[i]] 0 <= i < statuses.len() - 1 ==> statuses[i] is InProgress,
        statuses.last() is Done,
    ensures
        reset_command_count(views.last().ops, views[0].address) == reset_command_count(
            views[0].ops,
            views[0].address,
        ),
        !views.last().reset_started,
        views.last().address == views[0].address,
    decreases statuses.len(),
{
    lemma_reset_step(views[0], views[1], statuses[0], Ok::<ResetStatus, Error<E>>(statuses[0]));
    if statuses.len() > 1 {
        let v2 = views.skip(1);
        let s2 = statuses.skip(1);
        assert forall|i: int| 0 <= i < s2.len() implies reset_rel::<E>(
            v2[i],
            v2[i + 1],
            Ok(s2[i]),
        ) by {
            assert(v2[i] == views[i + 1] && v2[i + 1] == views[i + 2] && s2[i] == statuses[i
                + 1]);
            assert(reset_rel::<E>(views[i + 1], views[i + 1 + 1], Ok(statuses[i + 1])));
        }
        assert forall|i: int| 0 <= i < s2.len() - 1 implies s2[i] is InProgress by {
            assert(s2[i] == statuses[i + 1]);
        }
        assert(s2.last() == statuses.last());
        lemma_reset_run_started::<E>(v2, s2);
    }
}

/// The reset protocol over a whole run of successful polls, from an
/// idle handle to the poll that reports completion: the hardware reset
/// command is issued exactly once in the run, every poll before the
/// last reports the reset as in progress, and the in-progress flag ends
/// cleared.
pub proof fn lemma_reset_run<E>(views: Seq<DevView>, statuses: Seq<ResetStatus>)
    requires
        views.len() == statuses.len() + 1,
        statuses.len() >= 1,
        forall|i: int|
            #![trigger views[i]]
            0 <= i < statuses.len() ==> reset_rel::<E>(views[i], views[i + 1], Ok(statuses[i])),
        !views[0].reset_started,
        forall|i: int| #![trigger statuses[i]] 0 <= i < statuses.len() - 1 ==> statuses[i] is InProgress,
        statuses.last() is Done,
    ensures
        reset_command_count(views.last().ops, views[0].address) == reset_command_count(
            views[0].ops,
            views[0].address,
        ) + 1,
        !views.last().reset_started,
    decreases statuses.len(),
{
    lemma_reset_step(views[0], views[1], statuses[0], Ok::<ResetStatus, Error<E>>(statuses[0]));
    if statuses.len() == 1 {
        // a completion report needs a triggered reset: the premises rule
        // this case out
    } else {
        let v2 = views.skip(1);
        let s2 = statuses.skip(1);
        assert forall|i: int| 0 <= i < s2.len() implies reset_rel::<E>(
            v2[i],
            v2[i + 1],
            Ok(s2[i]),
        ) by {
            assert(v2[i] == views[i + 1] && v2[i + 1] == views[i + 2] && s2[i] == statuses[i
                + 1]);
            assert(reset_rel::<E>(views[i + 1], views[i + 1 + 1], Ok(statuses[i + 1])));
        }
        assert forall|i: int| 0 <= i < s2.len() - 1 implies s2[i] is InProgress by {
            assert(s2[i] == statuses[i + 1]);
        }
        assert(s2.last() == statuses.last());
        if views[1].reset_started {
            lemma_reset_run_started::<E>(v2, s2);
        } else {
            lemma_reset_run::<E>(v2, s2);
        }
    }
}

} // verus!
