use kxcj9::ic::{G16Device, G8Device};
use kxcj9::regs;
use kxcj9::{
    BusTx, InterruptInfo, InterruptPinLatching, InterruptPinPolarity, Kxcj9, ScriptBus,
    SlaveAddr, WakeUpInterruptConfig, WakeUpOutputDataRate, WakeUpTriggerMotion,
};

const DEV_ADDR: u8 = 0xE;

fn wr(reg: u8, value: u8) -> BusTx {
    BusTx::Write {
        addr: DEV_ADDR,
        reg,
        value,
    }
}

fn rd(reg: u8, data: Vec<u8>) -> BusTx {
    BusTx::Read {
        addr: DEV_ADDR,
        reg,
        data,
    }
}

fn new_1008(script: Vec<BusTx>) -> Kxcj9<ScriptBus, G8Device> {
    Kxcj9::new_1008(ScriptBus::new(script), SlaveAddr::default())
}

fn new_1018(script: Vec<BusTx>) -> Kxcj9<ScriptBus, G16Device> {
    Kxcj9::new_1018(ScriptBus::new(script), SlaveAddr::default())
}

fn destroy<IC>(sensor: Kxcj9<ScriptBus, IC>) {
    assert!(sensor.destroy().exhausted());
}

fn no_trigger_motion() -> WakeUpTriggerMotion {
    WakeUpTriggerMotion {
        x_negative: false,
        x_positive: false,
        y_negative: false,
        y_positive: false,
        z_negative: false,
        z_positive: false,
    }
}

#[test]
fn interrupts_interrupt_has_happened() {
    let transactions = vec![rd(regs::STATUS, vec![regs::INT])];
    let mut sensor = new_1018(transactions);
    assert!(sensor.has_interrupt_happened().unwrap());
    destroy(sensor);
}

#[test]
fn interrupts_interrupt_has_not_happened() {
    let transactions = vec![rd(regs::STATUS, vec![0])];
    let mut sensor = new_1018(transactions);
    assert!(!sensor.has_interrupt_happened().unwrap());
    destroy(sensor);
}

#[test]
fn interrupts_can_clear_interrupts() {
    let transactions = vec![rd(regs::INT_REL, vec![0])];
    let mut sensor = new_1018(transactions);
    sensor.clear_interrupts().unwrap();
    destroy(sensor);
}

#[test]
fn interrupts_no_interrupt_has_happened() {
    let transactions = vec![rd(regs::INT_SOURCE1, vec![0, 0])];
    let mut sensor = new_1018(transactions);
    assert_eq!(
        InterruptInfo::default(),
        sensor.read_interrupt_info().unwrap()
    );
    destroy(sensor);
}

fn int_happened_test(int_source1: u8, int_source2: u8, expected: InterruptInfo) {
    let transactions = vec![rd(regs::INT_SOURCE1, vec![int_source1, int_source2])];
    let mut sensor = new_1018(transactions);
    assert_eq!(expected, sensor.read_interrupt_info().unwrap());
    destroy(sensor);
}

#[test]
fn data_ready_int() {
    int_happened_test(
        regs::DRDY,
        0,
        InterruptInfo {
            data_ready: true,
            ..Default::default()
        },
    );
}

#[test]
fn wake_up_int() {
    int_happened_test(
        regs::WUFS,
        0,
        InterruptInfo {
            wake_up: true,
            ..Default::default()
        },
    );
}

#[test]
fn wake_up_x_pos_int() {
    int_happened_test(
        0,
        regs::XPWU,
        InterruptInfo {
            wake_up_x_positive: true,
            ..Default::default()
        },
    );
}

#[test]
fn wake_up_x_neg_int() {
    int_happened_test(
        0,
        regs::XNWU,
        InterruptInfo {
            wake_up_x_negative: true,
            ..Default::default()
        },
    );
}

#[test]
fn wake_up_y_pos_int() {
    int_happened_test(
        0,
        regs::YPWU,
        InterruptInfo {
            wake_up_y_positive: true,
            ..Default::default()
        },
    );
}

#[test]
fn wake_up_y_neg_int() {
    int_happened_test(
        0,
        regs::YNWU,
        InterruptInfo {
            wake_up_y_negative: true,
            ..Default::default()
        },
    );
}

#[test]
fn wake_up_z_pos_int() {
    int_happened_test(
        0,
        regs::ZPWU,
        InterruptInfo {
            wake_up_z_positive: true,
            ..Default::default()
        },
    );
}

#[test]
fn wake_up_z_neg_int() {
    int_happened_test(
        0,
        regs::ZNWU,
        InterruptInfo {
            wake_up_z_negative: true,
            ..Default::default()
        },
    );
}

#[test]
fn can_enable_drdy_int() {
    let transactions = vec![wr(regs::CTRL1, 0), wr(regs::CTRL1, regs::DRDYE)];
    let mut sensor = new_1018(transactions);
    sensor.enable_data_ready_interrupt().unwrap();
    destroy(sensor);
}

#[test]
fn can_disable_drdy_int() {
    let transactions = vec![wr(regs::CTRL1, 0), wr(regs::CTRL1, 0)];
    let mut sensor = new_1018(transactions);
    sensor.disable_data_ready_interrupt().unwrap();
    destroy(sensor);
}

#[test]
fn can_disable_wake_up_int() {
    let transactions = vec![wr(regs::CTRL1, 0), wr(regs::CTRL1, 0)];
    let mut sensor = new_1018(transactions);
    sensor.disable_wake_up_interrupt().unwrap();
    destroy(sensor);
}

#[test]
fn can_enable_wake_up_int() {
    let transactions = vec![
        wr(regs::CTRL1, regs::PC1),
        wr(regs::CTRL1, 0),
        wr(regs::INT_CTRL2, 0b0011_1111),
        wr(regs::CTRL2, 0),
        wr(regs::WAKEUP_TIMER, 1),
        wr(regs::WAKEUP_THRESHOLD, 8),
        wr(regs::CTRL1, regs::PC1 | regs::WUFE),
    ];
    let mut sensor = new_1008(transactions);
    sensor.enable().unwrap();
    let config = WakeUpInterruptConfig::default();
    sensor.enable_wake_up_interrupt(config).unwrap();
    destroy(sensor);
}

#[test]
fn enable_wu_int_disable_all() {
    let transactions = vec![
        wr(regs::CTRL1, regs::PC1),
        wr(regs::CTRL1, 0),
        wr(regs::INT_CTRL2, 0),
        wr(regs::CTRL2, 0),
        wr(regs::WAKEUP_TIMER, 1),
        wr(regs::WAKEUP_THRESHOLD, 8),
        wr(regs::CTRL1, regs::PC1 | regs::WUFE),
    ];
    let mut sensor = new_1008(transactions);
    sensor.enable().unwrap();
    let config = WakeUpInterruptConfig {
        trigger_motion: no_trigger_motion(),
        ..Default::default()
    };
    sensor.enable_wake_up_interrupt(config).unwrap();
    destroy(sensor);
}

#[test]
fn enable_wu_int_enable_all() {
    let transactions = vec![
        wr(regs::CTRL1, regs::PC1),
        wr(regs::CTRL1, 0),
        wr(regs::INT_CTRL2, 0b0011_1111),
        wr(regs::CTRL2, 0),
        wr(regs::WAKEUP_TIMER, 1),
        wr(regs::WAKEUP_THRESHOLD, 8),
        wr(regs::CTRL1, regs::PC1 | regs::WUFE),
    ];
    let mut sensor = new_1008(transactions);
    sensor.enable().unwrap();
    let config = WakeUpInterruptConfig {
        trigger_motion: WakeUpTriggerMotion::default(),
        ..Default::default()
    };
    sensor.enable_wake_up_interrupt(config).unwrap();
    destroy(sensor);
}

fn enable_wu_int_motion_test(int_ctrl2: u8, trigger_motion: WakeUpTriggerMotion) {
    let transactions = vec![
        wr(regs::CTRL1, regs::PC1),
        wr(regs::CTRL1, 0),
        wr(regs::INT_CTRL2, int_ctrl2),
        wr(regs::CTRL2, 0),
        wr(regs::WAKEUP_TIMER, 1),
        wr(regs::WAKEUP_THRESHOLD, 8),
        wr(regs::CTRL1, regs::PC1 | regs::WUFE),
    ];
    let mut sensor = new_1008(transactions);
    sensor.enable().unwrap();
    let config = WakeUpInterruptConfig {
        trigger_motion,
        ..Default::default()
    };
    sensor.enable_wake_up_interrupt(config).unwrap();
    destroy(sensor);
}

#[test]
fn can_enable_wu_int_motion_x_neg() {
    let trigger_motion = WakeUpTriggerMotion {
        x_negative: true,
        ..no_trigger_motion()
    };
    enable_wu_int_motion_test(regs::XNWU, trigger_motion);
}

#[test]
fn can_enable_wu_int_motion_x_pos() {
    let trigger_motion = WakeUpTriggerMotion {
        x_positive: true,
        ..no_trigger_motion()
    };
    enable_wu_int_motion_test(regs::XPWU, trigger_motion);
}

#[test]
fn can_enable_wu_int_motion_y_neg() {
    let trigger_motion = WakeUpTriggerMotion {
        y_negative: true,
        ..no_trigger_motion()
    };
    enable_wu_int_motion_test(regs::YNWU, trigger_motion);
}

#[test]
fn can_enable_wu_int_motion_y_pos() {
    let trigger_motion = WakeUpTriggerMotion {
        y_positive: true,
        ..no_trigger_motion()
    };
    enable_wu_int_motion_test(regs::YPWU, trigger_motion);
}

#[test]
fn can_enable_wu_int_motion_z_neg() {
    let trigger_motion = WakeUpTriggerMotion {
        z_negative: true,
        ..no_trigger_motion()
    };
    enable_wu_int_motion_test(regs::ZNWU, trigger_motion);
}

#[test]
fn can_enable_wu_int_motion_z_pos() {
    let trigger_motion = WakeUpTriggerMotion {
        z_positive: true,
        ..no_trigger_motion()
    };
    enable_wu_int_motion_test(regs::ZPWU, trigger_motion);
}

fn set_wu_odr_test(data_rate: WakeUpOutputDataRate, ctrl2: u8) {
    let transactions = vec![
        wr(regs::CTRL1, regs::PC1),
        wr(regs::CTRL1, 0),
        wr(regs::INT_CTRL2, 0b0011_1111),
        wr(regs::CTRL2, ctrl2),
        wr(regs::WAKEUP_TIMER, 1),
        wr(regs::WAKEUP_THRESHOLD, 8),
        wr(regs::CTRL1, regs::PC1 | regs::WUFE),
    ];
    let mut sensor = new_1008(transactions);
    sensor.enable().unwrap();
    let config = WakeUpInterruptConfig {
        data_rate,
        ..Default::default()
    };
    sensor.enable_wake_up_interrupt(config).unwrap();
    destroy(sensor);
}

#[test]
fn wake_up_set_odr_hz0() {
    set_wu_odr_test(WakeUpOutputDataRate::Hz0_781, 0);
}
#[test]
fn wake_up_set_odr_hz1() {
    set_wu_odr_test(WakeUpOutputDataRate::Hz1_563, 1);
}
#[test]
fn wake_up_set_odr_hz3() {
    set_wu_odr_test(WakeUpOutputDataRate::Hz3_125, 2);
}
#[test]
fn wake_up_set_odr_hz6() {
    set_wu_odr_test(WakeUpOutputDataRate::Hz6_25, 3);
}
#[test]
fn wake_up_set_odr_hz12() {
    set_wu_odr_test(WakeUpOutputDataRate::Hz12_5, 4);
}
#[test]
fn wake_up_set_odr_hz25() {
    set_wu_odr_test(WakeUpOutputDataRate::Hz25, 5);
}
#[test]
fn wake_up_set_odr_hz50() {
    set_wu_odr_test(WakeUpOutputDataRate::Hz50, 6);
}
#[test]
fn wake_up_set_odr_hz100() {
    set_wu_odr_test(WakeUpOutputDataRate::Hz100, 7);
}

#[test]
fn can_set_wake_up_fault_count() {
    let transactions = vec![
        wr(regs::CTRL1, regs::PC1),
        wr(regs::CTRL1, 0),
        wr(regs::INT_CTRL2, 0b0011_1111),
        wr(regs::CTRL2, 0),
        wr(regs::WAKEUP_TIMER, 0xAB),
        wr(regs::WAKEUP_THRESHOLD, 8),
        wr(regs::CTRL1, regs::PC1 | regs::WUFE),
    ];
    let mut sensor = new_1008(transactions);
    sensor.enable().unwrap();
    let config = WakeUpInterruptConfig {
        fault_count: 0xAB,
        ..Default::default()
    };
    sensor.enable_wake_up_interrupt(config).unwrap();
    destroy(sensor);
}

#[test]
fn cannot_set_wake_up_fault_count_0() {
    let mut sensor = new_1018(vec![]);
    let config = WakeUpInterruptConfig {
        fault_count: 0,
        ..Default::default()
    };
    assert!(matches!(
        sensor.enable_wake_up_interrupt(config),
        Err(kxcj9::Error::InvalidSetting)
    ));
    destroy(sensor);
}

#[test]
fn cannot_set_wake_up_th_too_low_1018() {
    let mut sensor = new_1018(vec![]);
    let config = WakeUpInterruptConfig {
        threshold: -100,
        ..Default::default()
    };
    sensor
        .enable_wake_up_interrupt(config)
        .expect_err("Should return error");
    destroy(sensor);
}

#[test]
fn cannot_set_wake_up_th_too_high_1018() {
    let mut sensor = new_1018(vec![]);
    let config = WakeUpInterruptConfig {
        threshold: 16100,
        ..Default::default()
    };
    sensor
        .enable_wake_up_interrupt(config)
        .expect_err("Should return error");
    destroy(sensor);
}

#[test]
fn cannot_set_wake_up_th_too_low_1008() {
    let mut sensor = new_1008(vec![]);
    let config = WakeUpInterruptConfig {
        threshold: -100,
        ..Default::default()
    };
    sensor
        .enable_wake_up_interrupt(config)
        .expect_err("Should return error");
    destroy(sensor);
}

#[test]
fn cannot_set_wake_up_th_too_high_1008() {
    let mut sensor = new_1008(vec![]);
    let config = WakeUpInterruptConfig {
        threshold: 8100,
        ..Default::default()
    };
    sensor
        .enable_wake_up_interrupt(config)
        .expect_err("Should return error");
    destroy(sensor);
}

#[test]
fn can_set_wake_up_th_2() {
    let transactions = vec![
        wr(regs::CTRL1, regs::PC1),
        wr(regs::CTRL1, 0),
        wr(regs::INT_CTRL2, 0b0011_1111),
        wr(regs::CTRL2, 0),
        wr(regs::WAKEUP_TIMER, 1),
        wr(regs::WAKEUP_THRESHOLD, 32),
        wr(regs::CTRL1, regs::PC1 | regs::WUFE),
    ];
    let mut sensor = new_1008(transactions);
    sensor.enable().unwrap();
    let config = WakeUpInterruptConfig {
        threshold: 2000,
        ..Default::default()
    };
    sensor.enable_wake_up_interrupt(config).unwrap();
    destroy(sensor);
}

fn int_pin_script(int_ctrl1: u8) -> Vec<BusTx> {
    vec![
        wr(regs::CTRL1, regs::PC1),
        wr(regs::CTRL1, 0),
        wr(regs::INT_CTRL1, int_ctrl1),
        wr(regs::CTRL1, regs::PC1),
    ]
}

#[test]
fn can_enable_int_pin() {
    let mut sensor = new_1018(int_pin_script(regs::IEN | regs::IEA));
    sensor.enable().unwrap();
    sensor.enable_interrupt_pin().unwrap();
    destroy(sensor);
}

#[test]
fn can_disable_int_pin() {
    let mut sensor = new_1018(int_pin_script(regs::IEA));
    sensor.enable().unwrap();
    sensor.disable_interrupt_pin().unwrap();
    destroy(sensor);
}

#[test]
fn can_set_int_pin_polarity_ah() {
    let mut sensor = new_1018(int_pin_script(regs::IEA));
    sensor.enable().unwrap();
    sensor
        .set_interrupt_pin_polarity(InterruptPinPolarity::ActiveHigh)
        .unwrap();
    destroy(sensor);
}

#[test]
fn can_set_int_pin_polarity_al() {
    let mut sensor = new_1018(int_pin_script(0));
    sensor.enable().unwrap();
    sensor
        .set_interrupt_pin_polarity(InterruptPinPolarity::ActiveLow)
        .unwrap();
    destroy(sensor);
}

#[test]
fn can_set_int_pin_latching() {
    let mut sensor = new_1018(int_pin_script(regs::IEA));
    sensor.enable().unwrap();
    sensor
        .set_interrupt_pin_latching(InterruptPinLatching::Latching)
        .unwrap();
    destroy(sensor);
}

#[test]
fn can_set_int_pin_non_latching() {
    let mut sensor = new_1018(int_pin_script(regs::IEA | regs::IEL));
    sensor.enable().unwrap();
    sensor
        .set_interrupt_pin_latching(InterruptPinLatching::NonLatching)
        .unwrap();
    destroy(sensor);
}
