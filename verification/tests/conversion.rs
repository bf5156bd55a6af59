use kxcj9::{convert_12bit, convert_14bit, convert_8bit, UnscaledMeasurement};

#[test]
fn can_convert_positive_8bit() {
    assert_eq!(
        UnscaledMeasurement {
            x: 1,
            y: 64,
            z: 127
        },
        convert_8bit(1, 64, 127)
    );
}

#[test]
fn can_convert_negative_8bit() {
    assert_eq!(
        UnscaledMeasurement {
            x: -1,
            y: -64,
            z: -128
        },
        convert_8bit(0b1111_1111, 0b1100_0000, 0b1000_0000)
    );
}

#[test]
fn can_convert_positive_12bit() {
    assert_eq!(
        UnscaledMeasurement {
            x: 1,
            y: 1024,
            z: 2047
        },
        convert_12bit(1, 1024, 2047)
    );
}

#[test]
fn can_convert_negative_12bit() {
    assert_eq!(
        UnscaledMeasurement {
            x: -1,
            y: -1024,
            z: -2048
        },
        convert_12bit(0b1111_1111_1111, 0b1100_0000_0000, 0b1000_0000_0000)
    );
}

#[test]
fn can_convert_positive_14bit() {
    assert_eq!(
        UnscaledMeasurement {
            x: 1,
            y: 4096,
            z: 8191
        },
        convert_14bit(1, 4096, 8191)
    );
}

#[test]
fn can_convert_negative_14bit() {
    assert_eq!(
        UnscaledMeasurement {
            x: -1,
            y: -4096,
            z: -8192
        },
        convert_14bit(
            0b11_1111_1111_1111,
            0b11_0000_0000_0000,
            0b10_0000_0000_0000
        )
    );
}

#[test]
fn conversion_ignores_upper_word_bits() {
    // the four (or two) bits above the sample width are noise and must
    // not change the decoded value
    assert_eq!(
        convert_12bit(0xF001, 0xF000 | 2047, 0xF000 | 2048),
        convert_12bit(1, 2047, 2048)
    );
    assert_eq!(
        convert_14bit(0xC001, 0xC000 | 8191, 0xC000 | 8192),
        convert_14bit(1, 8191, 8192)
    );
}
