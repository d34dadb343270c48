use dual_shock_4::{
    CalibrationData, CalibrationFlag, Error, HexError, MotionCalibration, Report, ReportId,
    StickMinMaxCalibration, TriggersCalibration,
};

#[test]
fn motion_block_renders_as_lowercase_hex() {
    let mut calibration = MotionCalibration::default();
    assert_eq!(calibration.to_hex(), "0".repeat(80));
    calibration.buf[0] = 0x0a;
    calibration.buf[1] = 0xf0;
    calibration.buf[39] = 0xbc;
    let text = calibration.to_hex();
    assert_eq!(text.len(), 80);
    assert_eq!(&text[0..4], "0af0");
    assert_eq!(&text[78..80], "bc");
}

#[test]
fn trigger_data_renders_as_lowercase_hex() {
    let calibration = TriggersCalibration {
        buf: vec![0x00, 0x01, 0x9a, 0xff],
    };
    assert_eq!(calibration.to_hex(), "00019aff");
    assert_eq!(TriggersCalibration::default().to_hex(), "");
}

#[test]
fn motion_form_text_round_trips() {
    let mut calibration = MotionCalibration::default();
    for i in 0..40 {
        calibration.buf[i] = (i as u8).wrapping_mul(37).wrapping_add(5);
    }
    let text = calibration.to_hex();
    let mut other = MotionCalibration::default();
    assert_eq!(other.set_from_hex(text.as_bytes()), Ok(()));
    assert_eq!(other, calibration);
    let mut upper = MotionCalibration::default();
    assert_eq!(upper.set_from_hex(text.to_uppercase().as_bytes()), Ok(()));
    assert_eq!(upper, calibration);
}

#[test]
fn short_motion_form_text_is_filled_with_zeros() {
    let mut calibration = MotionCalibration { buf: [0xee; 40] };
    assert_eq!(calibration.set_from_hex(b"0123f"), Ok(()));
    let mut expected = [0u8; 40];
    expected[0] = 0x01;
    expected[1] = 0x23;
    expected[2] = 0xf0;
    assert_eq!(calibration.buf, expected);
    assert_eq!(calibration.set_from_hex(b""), Ok(()));
    assert_eq!(calibration.buf, [0u8; 40]);
}

#[test]
fn long_motion_form_text_is_cut() {
    let mut text = "ab".repeat(40);
    text.push_str("zz not looked at");
    let mut calibration = MotionCalibration::default();
    assert_eq!(calibration.set_from_hex(text.as_bytes()), Ok(()));
    assert_eq!(calibration.buf, [0xab; 40]);
}

#[test]
fn motion_form_text_with_a_bad_character_is_taken_up_to_it() {
    let mut calibration = MotionCalibration { buf: [0xee; 40] };
    assert_eq!(
        calibration.set_from_hex(b"0102g3"),
        Err(HexError::InvalidHexCharacter { c: 'g', index: 4 })
    );
    let mut expected = [0xee; 40];
    expected[0] = 0x01;
    expected[1] = 0x02;
    assert_eq!(calibration.buf, expected);
    let mut calibration = MotionCalibration { buf: [0xee; 40] };
    assert_eq!(
        calibration.set_from_hex(b"01023 "),
        Err(HexError::InvalidHexCharacter { c: ' ', index: 5 })
    );
    assert_eq!(calibration.buf, expected);
    let mut calibration = MotionCalibration { buf: [0xee; 40] };
    assert_eq!(
        calibration.set_from_hex("\u{e9}".as_bytes()),
        Err(HexError::InvalidHexCharacter {
            c: '\u{c3}',
            index: 0
        })
    );
    assert_eq!(calibration.buf, [0xee; 40]);
}

#[test]
fn motion_block_from_and_to_frames() {
    let mut report = Report::new(ReportId::GetMotionCalibData, 40);
    for (i, byte) in report.payload_mut().iter_mut().enumerate() {
        *byte = i as u8 + 1;
    }
    let calibration = MotionCalibration::from_report(&report).unwrap();
    for i in 0..40 {
        assert_eq!(calibration.buf[i], i as u8 + 1);
    }
    let command = calibration.report();
    assert_eq!(*command.id(), ReportId::SetMotionCalibData);
    assert_eq!(command.data()[0], 0x04);
    assert_eq!(command.payload(), &calibration.buf[..]);
    assert_eq!(
        MotionCalibration::from_report(&Report::new(ReportId::GetMotionCalibData, 39)),
        Err(Error::InvalidReport)
    );
    assert_eq!(
        MotionCalibration::from_report(&Report::new(ReportId::SetMotionCalibData, 40)),
        Err(Error::InvalidReport)
    );
}

#[test]
fn calibration_flags_by_bit() {
    let flag = CalibrationFlag {
        buf: [0x01, 0xff, 0x0a, 0xff],
    };
    assert!(flag.is_gyroscope_calib_ok());
    assert!(!flag.is_accelerometer_calib_ok());
    assert!(!flag.is_stick_min_max_calib_ok());
    assert!(flag.is_stick_center_calib_ok());
    assert!(!flag.is_l2_calib_ok());
    assert!(flag.is_r2_calib_ok());
    let flag = CalibrationFlag {
        buf: [0x02, 0x00, 0x05, 0x00],
    };
    assert!(!flag.is_gyroscope_calib_ok());
    assert!(flag.is_accelerometer_calib_ok());
    assert!(flag.is_stick_min_max_calib_ok());
    assert!(!flag.is_stick_center_calib_ok());
    assert!(flag.is_l2_calib_ok());
    assert!(!flag.is_r2_calib_ok());
}

#[test]
fn calibration_flag_default_and_from_frame() {
    assert_eq!(CalibrationFlag::default().buf, [0x10, 0, 0, 0]);
    assert!(!CalibrationFlag::default().is_gyroscope_calib_ok());
    let mut report = Report::new(ReportId::GetCalibFlag, 4);
    report.payload_mut().copy_from_slice(&[3, 0, 15, 0]);
    let flag = CalibrationFlag::from_report(&report).unwrap();
    assert_eq!(flag.buf, [3, 0, 15, 0]);
    report.data_mut()[0] = 0x11;
    assert_eq!(CalibrationFlag::from_report(&report), Err(Error::InvalidReport));
}

#[test]
fn undecoded_data_renders_as_hex() {
    assert_eq!(
        CalibrationData::Raw(vec![0xde, 0xad, 0x01]).undecoded_hex(),
        Some("dead01".to_string())
    );
    assert_eq!(
        CalibrationData::Triggers(TriggersCalibration {
            buf: vec![0x7f, 0x80]
        })
        .undecoded_hex(),
        Some("7f80".to_string())
    );
    assert_eq!(
        CalibrationData::StickMinMax(StickMinMaxCalibration::default()).undecoded_hex(),
        None
    );
}
