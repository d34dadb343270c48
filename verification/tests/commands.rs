use dual_shock_4::TriggerKeyLeftRight::{Both, Left, Right, Unknown};
use dual_shock_4::TriggerMinMaxCalibrationType::{SaveMax, SaveMin, StartRecordMinMax};
use dual_shock_4::{
    is_dual_shock_4, FactoryCommand, ReportId, TestCommand, TriggerKeyLeftRight,
    TriggerMinMaxCalibrationType, TRIGGER_MIN_MAX_CALIBRATION_SAMPLES,
};

#[test]
fn set_address_is_opcode_ff_and_big_endian_address() {
    assert_eq!(FactoryCommand::SetIeepAddress(0).encode(), [0xff, 0x00, 0x00]);
    assert_eq!(FactoryCommand::SetIeepAddress(12).encode(), [0xff, 0x00, 0x0c]);
    assert_eq!(
        FactoryCommand::SetIeepAddress(0x011a).encode(),
        [0xff, 0x01, 0x1a]
    );
    assert_eq!(
        FactoryCommand::SetIeepAddress(0x07fe).encode(),
        [0xff, 0x07, 0xfe]
    );
    assert_eq!(
        FactoryCommand::SetIeepAddress(0xffff).encode(),
        [0xff, 0xff, 0xff]
    );
}

#[test]
fn trigger_min_max_arguments() {
    let table = [
        (StartRecordMinMax(Left), 0x42),
        (StartRecordMinMax(Right), 0x48),
        (StartRecordMinMax(Both), 0x4a),
        (StartRecordMinMax(Unknown), 0x40),
        (SaveMin(Left), 0x82),
        (SaveMin(Right), 0x88),
        (SaveMin(Both), 0x8a),
        (SaveMin(Unknown), 0x80),
        (SaveMax(Left), 0x02),
        (SaveMax(Right), 0x08),
        (SaveMax(Both), 0x0a),
        (SaveMax(Unknown), 0x00),
    ];
    for (step, argument) in table {
        assert_eq!(step.encode(), argument);
        assert_eq!(
            FactoryCommand::TriggerMinMaxCalibration(step).encode(),
            [0x02, argument, argument]
        );
    }
}

#[test]
fn factory_command_frame() {
    let report = FactoryCommand::SetIeepAddress(0x0123).report();
    assert_eq!(report.data(), &[0x08, 0xff, 0x01, 0x23]);
    assert_eq!(*report.id(), ReportId::SetFactoryCommand);
    let report = FactoryCommand::TriggerMinMaxCalibration(TriggerMinMaxCalibrationType::SaveMin(
        TriggerKeyLeftRight::Both,
    ))
    .report();
    assert_eq!(report.data(), &[0x08, 0x02, 0x8a, 0x8a]);
}

#[test]
fn test_command_frames() {
    let table: Vec<(TestCommand, Vec<u8>)> = vec![
        (
            TestCommand::SetPermanent(true),
            vec![0xa0, 0x0a, 0x02, 0x3e, 0x71, 0x7f, 0x89],
        ),
        (TestCommand::SetPermanent(false), vec![0xa0, 0x0a, 0x01, 0x00]),
        (
            TestCommand::RecordTriggerMinMax(Left, true),
            vec![0xa0, 0x08, 0x01, 0x01, 0x01],
        ),
        (
            TestCommand::RecordTriggerMinMax(Left, false),
            vec![0xa0, 0x08, 0x01, 0x01, 0x00],
        ),
        (
            TestCommand::RecordTriggerMinMax(Right, true),
            vec![0xa0, 0x08, 0x01, 0x02, 0x01],
        ),
        (
            TestCommand::RecordTriggerMinMax(Right, false),
            vec![0xa0, 0x08, 0x01, 0x02, 0x00],
        ),
        (
            TestCommand::RecordTriggerMinMax(Both, true),
            vec![0xa0, 0x08, 0x01, 0x00, 0x01],
        ),
        (
            TestCommand::RecordTriggerMinMax(Both, false),
            vec![0xa0, 0x08, 0x01, 0x00, 0x00],
        ),
        (
            TestCommand::ReloadTriggerMinMaxFromFlash,
            vec![0xa0, 0x08, 0x02],
        ),
    ];
    for (command, frame) in table {
        assert!(command.is_supported());
        let report = command.report();
        assert_eq!(report.data(), &frame[..]);
        assert_eq!(*report.id(), ReportId::SetTestCommand);
        assert!(report.valid());
    }
}

#[test]
fn recording_without_a_side_is_not_supported() {
    assert!(!TestCommand::RecordTriggerMinMax(TriggerKeyLeftRight::Unknown, true).is_supported());
    assert!(!TestCommand::RecordTriggerMinMax(TriggerKeyLeftRight::Unknown, false).is_supported());
}

#[test]
fn device_filter() {
    assert!(is_dual_shock_4(0x054c, 0x05c4));
    assert!(is_dual_shock_4(0x054c, 0x09cc));
    assert!(!is_dual_shock_4(0x054c, 0x0ce6));
    assert!(!is_dual_shock_4(0x054d, 0x05c4));
    assert!(!is_dual_shock_4(0x05c4, 0x054c));
    assert!(!is_dual_shock_4(0, 0));
}

#[test]
fn trigger_sample_count_constant() {
    assert_eq!(TRIGGER_MIN_MAX_CALIBRATION_SAMPLES, 1250);
}
