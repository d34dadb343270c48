use crate::calibration::{
    AnalogStickCalibrationType, CalibrationDeviceType, CalibrationResult, CalibrationState,
    TriggerKeyCalibrationType, TriggerKeyLeftRight,
};
use crate::calibration_data::CalibrationData;
use vstd::prelude::*;

verus! {

/// The page that the calibration wizard shows.
#[derive(Debug, Clone, PartialEq, Eq)]
pub enum CalibrationWizard {
    /// No calibration is running: offer to start one.
    Start,
    AnalogStickCenter,
    AnalogStickMinMax,
    TriggerKey(TriggerKeyCalibrationType),
    /// A run has completed: the device it was for, and the data read back.
    Success(CalibrationDeviceType, CalibrationData),
    Failed,
}

/// What to do once the device has reported its calibration state.
#[derive(Debug, Clone, Copy, PartialEq, Eq, Structural)]
pub enum AfterState {
    /// No calibration is running.
    ShowStart,
    /// A stick centre run is in progress.
    ShowAnalogStickCenter,
    /// A stick range run is in progress.
    ShowAnalogStickMinMax,
    /// A trigger run is in progress: show the page of the given phase.
    ShowTriggerKey(TriggerKeyCalibrationType),
    /// The run has finished: read its result.
    ReadResult,
    /// A run is in progress for which the wizard has no page.
    Unsupported,
}

/// What to do once the device has reported the result of a finished run.
#[derive(Debug, Clone, Copy, PartialEq, Eq, Structural)]
pub enum AfterResult {
    /// The run completed for the given device: read its calibration data.
    ReadData(CalibrationDeviceType),
    /// The run failed: there is no data to read.
    ShowFailed,
}

impl CalibrationWizard {
    /// What follows from a calibration state. The state is taken as the
    /// device reports it; nothing is inferred from what was sent before.
    pub open spec fn step_after_state(state: CalibrationState) -> AfterState {
        match state {
            CalibrationState::Started(
                CalibrationDeviceType::AnalogStick(AnalogStickCalibrationType::Center),
            ) => AfterState::ShowAnalogStickCenter,
            CalibrationState::Started(
                CalibrationDeviceType::AnalogStick(AnalogStickCalibrationType::MinMax),
            ) => AfterState::ShowAnalogStickMinMax,
            CalibrationState::Started(CalibrationDeviceType::TriggerKey(_)) => {
                AfterState::ShowTriggerKey(
                    TriggerKeyCalibrationType::RecordMaxSample(TriggerKeyLeftRight::Both),
                )
            },
            CalibrationState::Started(_) => AfterState::Unsupported,
            CalibrationState::Finished(_) => AfterState::ReadResult,
            CalibrationState::Unknown => AfterState::ShowStart,
        }
    }

    /// What follows from the result of a finished run.
    pub open spec fn step_after_result(result: CalibrationResult) -> AfterResult {
        match result {
            CalibrationResult::Completed(device) => AfterResult::ReadData(device),
            CalibrationResult::NotCompleted(_) => AfterResult::ShowFailed,
        }
    }

    /// What follows from a calibration state.
    pub fn after_state(state: CalibrationState) -> (step: AfterState)
        ensures
            step == Self::step_after_state(state),
    {
        match state {
            CalibrationState::Started(
                CalibrationDeviceType::AnalogStick(AnalogStickCalibrationType::Center),
            ) => AfterState::ShowAnalogStickCenter,
            CalibrationState::Started(
                CalibrationDeviceType::AnalogStick(AnalogStickCalibrationType::MinMax),
            ) => AfterState::ShowAnalogStickMinMax,
            CalibrationState::Started(CalibrationDeviceType::TriggerKey(_)) => {
                AfterState::ShowTriggerKey(
                    TriggerKeyCalibrationType::RecordMaxSample(TriggerKeyLeftRight::Both),
                )
            },
            CalibrationState::Started(_) => AfterState::Unsupported,
            CalibrationState::Finished(_) => AfterState::ReadResult,
            CalibrationState::Unknown => AfterState::ShowStart,
        }
    }

    /// What follows from the result of a finished run.
    pub fn after_result(result: CalibrationResult) -> (step: AfterResult)
        ensures
            step == Self::step_after_result(result),
    {
        match result {
            CalibrationResult::Completed(device) => AfterResult::ReadData(device),
            CalibrationResult::NotCompleted(_) => AfterResult::ShowFailed,
        }
    }
}

impl TriggerKeyCalibrationType {
    /// The phase that follows this one in a trigger run: the greatest
    /// value, the range, the least value, then the phase without a name in
    /// which a sample is added or the run is finished. The sentinel is
    /// followed by itself.
    pub open spec fn following(self) -> TriggerKeyCalibrationType {
        match self {
            TriggerKeyCalibrationType::RecordMaxSample(lr) => {
                TriggerKeyCalibrationType::RecordRangeSample(lr)
            },
            TriggerKeyCalibrationType::RecordRangeSample(lr) => {
                TriggerKeyCalibrationType::RecordMinSample(lr)
            },
            TriggerKeyCalibrationType::RecordMinSample(lr) => TriggerKeyCalibrationType::Unknown(
                lr,
            ),
            TriggerKeyCalibrationType::Unknown(lr) => TriggerKeyCalibrationType::RecordMaxSample(
                lr,
            ),
            TriggerKeyCalibrationType::Unset => TriggerKeyCalibrationType::Unset,
        }
    }

    /// The phase that follows this one in a trigger run.
    pub fn next_step(&self) -> (next: TriggerKeyCalibrationType)
        ensures
            next == self.following(),
    {
        match self {
            TriggerKeyCalibrationType::RecordMaxSample(lr) => {
                TriggerKeyCalibrationType::RecordRangeSample(*lr)
            },
            TriggerKeyCalibrationType::RecordRangeSample(lr) => {
                TriggerKeyCalibrationType::RecordMinSample(*lr)
            },
            TriggerKeyCalibrationType::RecordMinSample(lr) => TriggerKeyCalibrationType::Unknown(
                *lr,
            ),
            TriggerKeyCalibrationType::Unknown(lr) => TriggerKeyCalibrationType::RecordMaxSample(
                *lr,
            ),
            TriggerKeyCalibrationType::Unset => TriggerKeyCalibrationType::Unset,
        }
    }
}

} // verus!
