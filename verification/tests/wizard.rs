use dual_shock_4::{
    AfterResult, AfterState, AnalogStickCalibrationType, CalibrationDeviceType, CalibrationResult,
    CalibrationState, CalibrationWizard, TriggerKeyCalibrationType, TriggerKeyLeftRight,
};

#[test]
fn wizard_page_follows_reported_state() {
    let center = CalibrationDeviceType::AnalogStick(AnalogStickCalibrationType::Center);
    let min_max = CalibrationDeviceType::AnalogStick(AnalogStickCalibrationType::MinMax);
    let trigger = CalibrationDeviceType::TriggerKey(TriggerKeyCalibrationType::Unknown(
        TriggerKeyLeftRight::Left,
    ));
    assert_eq!(
        CalibrationWizard::after_state(CalibrationState::Unknown),
        AfterState::ShowStart
    );
    assert_eq!(
        CalibrationWizard::after_state(CalibrationState::Started(center)),
        AfterState::ShowAnalogStickCenter
    );
    assert_eq!(
        CalibrationWizard::after_state(CalibrationState::Started(min_max)),
        AfterState::ShowAnalogStickMinMax
    );
    assert_eq!(
        CalibrationWizard::after_state(CalibrationState::Started(trigger)),
        AfterState::ShowTriggerKey(TriggerKeyCalibrationType::RecordMaxSample(
            TriggerKeyLeftRight::Both
        ))
    );
    for device in [center, min_max, trigger, CalibrationDeviceType::Unset] {
        assert_eq!(
            CalibrationWizard::after_state(CalibrationState::Finished(device)),
            AfterState::ReadResult
        );
    }
    for device in [
        CalibrationDeviceType::MotionSensor,
        CalibrationDeviceType::Unset,
        CalibrationDeviceType::AnalogStick(AnalogStickCalibrationType::Unset),
    ] {
        assert_eq!(
            CalibrationWizard::after_state(CalibrationState::Started(device)),
            AfterState::Unsupported
        );
    }
}

#[test]
fn wizard_reads_data_only_after_a_completed_run() {
    let center = CalibrationDeviceType::AnalogStick(AnalogStickCalibrationType::Center);
    assert_eq!(
        CalibrationWizard::after_result(CalibrationResult::Completed(center)),
        AfterResult::ReadData(center)
    );
    assert_eq!(
        CalibrationWizard::after_result(CalibrationResult::NotCompleted(center)),
        AfterResult::ShowFailed
    );
}

#[test]
fn trigger_run_phases_follow_in_order() {
    for side in [
        TriggerKeyLeftRight::Unknown,
        TriggerKeyLeftRight::Left,
        TriggerKeyLeftRight::Right,
        TriggerKeyLeftRight::Both,
    ] {
        assert_eq!(
            TriggerKeyCalibrationType::RecordMaxSample(side).next_step(),
            TriggerKeyCalibrationType::RecordRangeSample(side)
        );
        assert_eq!(
            TriggerKeyCalibrationType::RecordRangeSample(side).next_step(),
            TriggerKeyCalibrationType::RecordMinSample(side)
        );
        assert_eq!(
            TriggerKeyCalibrationType::RecordMinSample(side).next_step(),
            TriggerKeyCalibrationType::Unknown(side)
        );
        assert_eq!(
            TriggerKeyCalibrationType::Unknown(side).next_step(),
            TriggerKeyCalibrationType::RecordMaxSample(side)
        );
    }
    assert_eq!(
        TriggerKeyCalibrationType::Unset.next_step(),
        TriggerKeyCalibrationType::Unset
    );
}
