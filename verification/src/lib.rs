//! Protocol layer for the DualShock 4 controller's vendor-defined HID
//! feature reports: frame construction and validation, input telemetry
//! decoding, calibration commands and data reassembly, the flash mirror
//! with its checksum, and the test and factory command encodings.
//!
//! Nothing here touches a device. Every function maps plain values to plain
//! values, so a transport can be driven from outside: build a frame, exchange
//! it, hand the answer back.

pub mod calibration;
pub mod calibration_data;
pub mod commands;
pub mod data;
pub mod device;
pub mod error;
pub mod flash;
pub mod hex_text;
pub mod hid_report;
pub mod latest_input;
pub mod reassembly;
pub mod stick_calibration;
pub mod wire;
pub mod wizard;

pub use calibration::{
    AnalogStickCalibrationType, CalibrationDeviceType, CalibrationResult, CalibrationState,
    CalibrationType, TriggerKeyCalibrationType, TriggerKeyLeftRight,
};
pub use calibration_data::{
    CalibrationData, CalibrationDataView, CalibrationFlag, MotionCalibration,
    StickCenterCalibrationResult, TriggersCalibration, TRIGGER_MIN_MAX_CALIBRATION_SAMPLES,
};
pub use commands::{FactoryCommand, TestCommand, TriggerMinMaxCalibrationType};
pub use data::{DPadState, Data, StickPosition};
pub use device::is_dual_shock_4;
pub use error::{Error, ParseError};
pub use flash::{FlashMirror, FLASH_MIRROR_SIZE};
pub use hex_text::HexError;
pub use hid_report::{Report, ReportId, ReportView};
pub use latest_input::{latest_of, LatestInput, MAX_DRAIN_READS};
pub use reassembly::{reassemble, CalibrationDataAssembler, ChunkOutcome};
pub use stick_calibration::{
    StickCenterCalibration, StickMinMaxCalibration, STICK_CALIBRATION_HALF_RANGE,
    STICK_CALIBRATION_RANGE,
};
pub use wizard::{AfterResult, AfterState, CalibrationWizard};
