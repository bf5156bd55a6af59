use kxcj9::ic::G16Device;
use kxcj9::regs;
use kxcj9::{BusTx, GScale16, Kxcj9, Resolution, ScriptBus, SlaveAddr};

const DEV_ADDR: u8 = 0xE;

fn wr(reg: u8, value: u8) -> BusTx {
    BusTx::Write {
        addr: DEV_ADDR,
        reg,
        value,
    }
}

fn rd(reg: u8, data: Vec<u8>) -> BusTx {
    BusTx::Read {
        addr: DEV_ADDR,
        reg,
        data,
    }
}

fn new_1018(script: Vec<BusTx>) -> Kxcj9<ScriptBus, G16Device> {
    Kxcj9::new_1018(ScriptBus::new(script), SlaveAddr::default())
}

fn destroy<IC>(sensor: Kxcj9<ScriptBus, IC>) {
    assert!(sensor.destroy().exhausted());
}

#[test]
fn can_read_unscaled_8bit() {
    let transactions = vec![rd(regs::XOUT_L, vec![0, 0xAB, 127, 0xCD, 128, 0xEF])];
    let mut sensor = new_1018(transactions);
    let measurement = sensor.read_unscaled().unwrap();
    assert_eq!(0, measurement.x);
    assert_eq!(127, measurement.y);
    assert_eq!(-128, measurement.z);
    destroy(sensor);
}

#[test]
fn can_read_unscaled_12bit() {
    let transactions = vec![
        wr(regs::CTRL1, 0),
        wr(regs::CTRL1, regs::RES),
        rd(regs::XOUT_L, vec![1, 0, 255, 3, 255, 7]),
    ];
    let mut sensor = new_1018(transactions);
    sensor.set_resolution(Resolution::High).unwrap();
    let measurement = sensor.read_unscaled().unwrap();
    assert_eq!(1, measurement.x);
    assert_eq!(1023, measurement.y);
    assert_eq!(2047, measurement.z);
    destroy(sensor);
}

#[test]
fn can_read_unscaled_14bit() {
    let transactions = vec![
        wr(regs::CTRL1, 0),
        wr(regs::CTRL1, regs::RES | regs::GSEL0 | regs::GSEL1),
        rd(regs::XOUT_L, vec![1, 0, 255, 15, 255, 31]),
    ];
    let mut sensor = new_1018(transactions);
    sensor.set_scale(GScale16::G16FP).unwrap();
    let measurement = sensor.read_unscaled().unwrap();
    assert_eq!(1, measurement.x);
    assert_eq!(4095, measurement.y);
    assert_eq!(8191, measurement.z);
    destroy(sensor);
}

fn assert_near_positive(a: f32, b: f32) {
    if (a - b).abs() > 0.1 {
        panic!("{} vs {}", a, b);
    }
}

#[test]
#[should_panic]
fn reading_assert_near_can_fail() {
    assert_near_positive(1.0, 2.0)
}

fn in_g(q12: i32) -> f32 {
    q12 as f32 / 4096.0
}

#[test]
fn can_read_8bit_4g_1018() {
    let transactions = vec![rd(regs::XOUT_L, vec![0, 0xAB, 64, 0xCD, 127, 0xEF])];
    let mut sensor = new_1018(transactions);
    let measurement = sensor.read().unwrap();
    assert_near_positive(0.0, in_g(measurement.x));
    assert_near_positive(2.0, in_g(measurement.y));
    assert_near_positive(4.0, in_g(measurement.z));
    destroy(sensor);
}

#[test]
fn can_read_12bit_8g_1018() {
    let transactions = vec![
        wr(regs::CTRL1, 0),
        wr(regs::CTRL1, regs::RES),
        wr(regs::CTRL1, regs::RES),
        wr(regs::CTRL1, regs::RES | regs::GSEL0),
        rd(regs::XOUT_L, vec![1, 0, 255, 3, 255, 7]),
    ];
    let mut sensor = new_1018(transactions);
    sensor.set_resolution(Resolution::High).unwrap();
    sensor.set_scale(GScale16::G8).unwrap();
    let measurement = sensor.read().unwrap();
    assert_near_positive(0.0, in_g(measurement.x));
    assert_near_positive(4.0, in_g(measurement.y));
    assert_near_positive(8.0, in_g(measurement.z));
    destroy(sensor);
}

#[test]
fn can_read_12bit_16g_1018() {
    let transactions = vec![
        wr(regs::CTRL1, 0),
        wr(regs::CTRL1, regs::RES),
        wr(regs::CTRL1, regs::RES),
        wr(regs::CTRL1, regs::RES | regs::GSEL1),
        rd(regs::XOUT_L, vec![1, 0, 255, 3, 255, 7]),
    ];
    let mut sensor = new_1018(transactions);
    sensor.set_resolution(Resolution::High).unwrap();
    sensor.set_scale(GScale16::G16).unwrap();
    let measurement = sensor.read().unwrap();
    assert_near_positive(0.0, in_g(measurement.x));
    assert_near_positive(8.0, in_g(measurement.y));
    assert_near_positive(16.0, in_g(measurement.z));
    destroy(sensor);
}

#[test]
fn can_read_14bit_16g_1018() {
    let transactions = vec![
        wr(regs::CTRL1, 0),
        wr(regs::CTRL1, regs::RES | regs::GSEL0 | regs::GSEL1),
        rd(regs::XOUT_L, vec![1, 0, 255, 15, 255, 31]),
    ];
    let mut sensor = new_1018(transactions);
    sensor.set_scale(GScale16::G16FP).unwrap();
    let measurement = sensor.read().unwrap();
    assert_near_positive(0.0, in_g(measurement.x));
    assert_near_positive(8.0, in_g(measurement.y));
    assert_near_positive(16.0, in_g(measurement.z));
    destroy(sensor);
}

#[test]
fn read_after_high_speed_odr_uses_12bit_decoding() {
    // a high-speed data rate forces high resolution, so the next read
    // decodes little-endian 12-bit samples
    let transactions = vec![
        wr(regs::CTRL1, 0),
        wr(regs::DATA_CTRL, 5),
        wr(regs::CTRL1, regs::RES),
        rd(regs::XOUT_L, vec![1, 0, 255, 3, 255, 7]),
    ];
    let mut sensor = new_1018(transactions);
    sensor
        .set_output_data_rate(kxcj9::OutputDataRate::Hz400)
        .unwrap();
    let measurement = sensor.read_unscaled().unwrap();
    assert_eq!(1, measurement.x);
    assert_eq!(1023, measurement.y);
    assert_eq!(2047, measurement.z);
    destroy(sensor);
}
