use dual_shock_4::{DPadState, Data, StickPosition};

fn sample() -> Data {
    let mut data = Data::zeroed();
    data.buf[0] = 0x01;
    data.buf[1] = 0x10;
    data.buf[2] = 0x20;
    data.buf[3] = 0x30;
    data.buf[4] = 0x40;
    data.buf[5] = 0b1010_0110;
    data.buf[6] = 0b0101_1001;
    data.buf[7] = 0b1011_0110;
    data.buf[8] = 0x7f;
    data.buf[9] = 0xfe;
    data.buf[10] = 0x34;
    data.buf[11] = 0x12;
    data.buf[12] = 0x0b;
    data.buf[13] = 0xff;
    data.buf[14] = 0xff;
    data.buf[15] = 0x00;
    data.buf[16] = 0x80;
    data.buf[17] = 0xff;
    data.buf[18] = 0x7f;
    data.buf[19] = 0x01;
    data.buf[20] = 0x00;
    data.buf[21] = 0xfe;
    data.buf[22] = 0xff;
    data.buf[23] = 0x00;
    data.buf[24] = 0x20;
    data
}

#[test]
fn zeroed_snapshot_is_all_zero() {
    let data = Data::zeroed();
    assert_eq!(data.buf, [0u8; 64]);
    assert!(data.is_zeroed());
}

#[test]
fn snapshot_with_any_byte_set_is_not_zeroed() {
    for i in 0..64 {
        let mut data = Data::zeroed();
        data.buf[i] = 1;
        assert!(!data.is_zeroed());
    }
}

#[test]
fn sticks_are_read_by_position() {
    let data = sample();
    assert_eq!(data.left_stick_position(), StickPosition { x: 0x10, y: 0x20 });
    assert_eq!(data.right_stick_position(), StickPosition { x: 0x30, y: 0x40 });
}

#[test]
fn face_buttons_are_the_upper_bits_of_byte_five() {
    let data = sample();
    assert!(data.triangle());
    assert!(!data.circle());
    assert!(data.cross());
    assert!(!data.square());
    let mut other = Data::zeroed();
    other.buf[5] = 0b0101_0000;
    assert!(!other.triangle());
    assert!(other.circle());
    assert!(!other.cross());
    assert!(other.square());
}

#[test]
fn shoulder_bits_of_byte_six() {
    let data = sample();
    assert!(!data.r3());
    assert!(data.l3());
    assert!(!data.options());
    assert!(data.share());
    assert!(data.r2());
    assert!(!data.l2());
    assert!(!data.r1());
    assert!(data.l1());
    let mut other = Data::zeroed();
    other.buf[6] = 0b1010_0110;
    assert!(other.r3());
    assert!(!other.l3());
    assert!(other.options());
    assert!(!other.share());
    assert!(!other.r2());
    assert!(other.l2());
    assert!(other.r1());
    assert!(!other.l1());
}

#[test]
fn counter_and_status_bits_of_byte_seven() {
    let data = sample();
    assert_eq!(data.counter(), 0b10_1101);
    assert!(data.t_pad_click());
    assert!(!data.ps());
    let mut other = Data::zeroed();
    other.buf[7] = 0b1111_1101;
    assert_eq!(other.counter(), 63);
    assert!(!other.t_pad_click());
    assert!(other.ps());
}

#[test]
fn triggers_timestamp_and_battery() {
    let data = sample();
    assert_eq!(data.l2_trigger(), 0x7f);
    assert_eq!(data.r2_trigger(), 0xfe);
    assert_eq!(data.timestamp(), 0x1234);
    assert_eq!(data.battery(), 0x0b);
}

#[test]
fn motion_axes_are_signed_little_endian() {
    let data = sample();
    assert_eq!(data.gyroscope_x(), -1);
    assert_eq!(data.gyroscope_y(), i16::MIN);
    assert_eq!(data.gyroscope_z(), i16::MAX);
    assert_eq!(data.accelerometer_x(), 1);
    assert_eq!(data.accelerometer_y(), -2);
    assert_eq!(data.accelerometer_z(), 0x2000);
}

#[test]
fn d_pad_up_decodes_to_up() {
    let mut data = Data::zeroed();
    data.buf[5] = 0x00;
    assert_eq!(data.d_pad(), DPadState::Up);
    data.buf[5] = 0xf0;
    assert_eq!(data.d_pad(), DPadState::Up);
}

#[test]
fn d_pad_compass_codes() {
    let expected = [
        DPadState::Up,
        DPadState::UpRight,
        DPadState::Right,
        DPadState::DownRight,
        DPadState::Down,
        DPadState::DownLeft,
        DPadState::Left,
        DPadState::UpLeft,
    ];
    for (nibble, state) in expected.iter().enumerate() {
        for upper in [0x00u8, 0x50, 0xf0] {
            let mut data = Data::zeroed();
            data.buf[5] = upper | nibble as u8;
            assert_eq!(data.d_pad(), *state);
        }
    }
}

#[test]
fn d_pad_other_nibbles_are_released() {
    for nibble in 8..16u8 {
        for upper in [0x00u8, 0xa0, 0xf0] {
            let mut data = Data::zeroed();
            data.buf[5] = upper | nibble;
            assert_eq!(data.d_pad(), DPadState::Released);
        }
    }
}

#[test]
fn stick_deflection_at_the_ends_and_the_centre() {
    let low = StickPosition { x: 0, y: 0 };
    assert_eq!(low.deflection_x(), -255);
    assert_eq!(low.deflection_y(), 255);
    let high = StickPosition { x: 255, y: 255 };
    assert_eq!(high.deflection_x(), 255);
    assert_eq!(high.deflection_y(), -255);
    let below = StickPosition { x: 127, y: 127 };
    assert_eq!(below.deflection_x(), -1);
    assert_eq!(below.deflection_y(), 1);
    let above = StickPosition { x: 128, y: 128 };
    assert_eq!(above.deflection_x(), 1);
    assert_eq!(above.deflection_y(), -1);
}

#[test]
fn stick_normalization_spans_two_around_zero() {
    for raw in 0..=255u8 {
        let position = StickPosition { x: raw, y: raw };
        let x = position.deflection_x() as f64 / 255.0;
        let y = position.deflection_y() as f64 / 255.0;
        assert!((x - (raw as f64 / 127.5 - 1.0)).abs() < 1e-12);
        assert!((y - (1.0 - raw as f64 / 127.5)).abs() < 1e-12);
    }
    let low = StickPosition { x: 0, y: 0 };
    assert_eq!(low.deflection_x() as f64 / 255.0, -1.0);
    assert_eq!(low.deflection_y() as f64 / 255.0, 1.0);
    let high = StickPosition { x: 255, y: 255 };
    assert_eq!(high.deflection_x() as f64 / 255.0, 1.0);
    assert_eq!(high.deflection_y() as f64 / 255.0, -1.0);
    let centre = StickPosition { x: 127, y: 128 };
    assert!((centre.deflection_x() as f64 / 255.0).abs() < 0.005);
    assert!((centre.deflection_y() as f64 / 255.0).abs() < 0.005);
}
