use crate::calibration::{AnalogStickCalibrationType, CalibrationDeviceType};
use crate::error::{Error, ParseError};
use crate::hid_report::{Report, ReportId};
use crate::stick_calibration::{StickCenterCalibration, StickMinMaxCalibration};
use crate::wire::array_from;
use vstd::prelude::*;

verus! {

/// The payload size of a motion calibration report.
pub const MOTION_CALIBRATION_DATA_SIZE: usize = 40;

/// The payload size of a calibration flag report.
pub const CALIBRATION_FLAG_SIZE: usize = 4;

/// The payload size of a calibration state report.
pub const CALIBRATION_STATE_SIZE: usize = 3;

/// The payload size of a calibration result report.
pub const CALIBRATION_RESULT_SIZE: usize = 3;

/// The payload size of one chunk of calibration data.
pub const CALIBRATION_DATA_SIZE: usize = 13;

/// The most data bytes that one chunk carries.
pub const CALIBRATION_CHUNK_CAPACITY: u8 = 8;

/// The number of samples that a trigger range calibration collects.
pub const TRIGGER_MIN_MAX_CALIBRATION_SAMPLES: u16 = 0x04E2;

/// The motion sensor's calibration block, as the device stores it.
#[derive(Debug, Clone, Copy, PartialEq, Eq)]
pub struct MotionCalibration {
    pub buf: [u8; 40],
}

impl Default for MotionCalibration {
    fn default() -> (calibration: Self)
        ensures
            calibration.buf@ == Seq::new(40, |i: int| 0u8),
    {
        let calibration = MotionCalibration { buf: [0u8; 40] };
        assert(calibration.buf@ =~= Seq::new(40, |i: int| 0u8));
        calibration
    }
}

impl MotionCalibration {
    /// Reads the block out of the response to a motion calibration request.
    /// A frame that is no such response is refused as invalid.
    pub fn from_report(report: &Report) -> (result: Result<Self, Error>)
        ensures
            report.answers(ReportId::GetMotionCalibData, 40) ==> (result matches Ok(calibration)
                && calibration.buf@ == report@.payload()),
            !report.answers(ReportId::GetMotionCalibData, 40) ==> result == Err::<Self, Error>(
                Error::InvalidReport,
            ),
    {
        match report.response_payload::<40>(ReportId::GetMotionCalibData) {
            Ok(buf) => Ok(MotionCalibration { buf }),
            Err(e) => Err(e),
        }
    }

    /// The frame that writes the block to the device.
    pub fn report(&self) -> (report: Report)
        ensures
            report@.id == ReportId::SetMotionCalibData,
            report@.data == seq![0x04u8] + self.buf@,
    {
        Report::from_payload(ReportId::SetMotionCalibData, self.buf.as_slice())
    }
}

/// Which calibrations the device holds as valid.
#[derive(Debug, Clone, Copy, PartialEq, Eq)]
pub struct CalibrationFlag {
    pub buf: [u8; 4],
}

impl CalibrationFlag {
    pub fn is_gyroscope_calib_ok(&self) -> (ok: bool)
        ensures
            ok == (self.buf[0] & 0x01 != 0),
    {
        self.buf[0] & 0x01 != 0
    }

    pub fn is_accelerometer_calib_ok(&self) -> (ok: bool)
        ensures
            ok == (self.buf[0] & 0x02 != 0),
    {
        self.buf[0] & 0x02 != 0
    }

    pub fn is_stick_min_max_calib_ok(&self) -> (ok: bool)
        ensures
            ok == (self.buf[2] & 0x01 != 0),
    {
        self.buf[2] & 0x01 != 0
    }

    pub fn is_stick_center_calib_ok(&self) -> (ok: bool)
        ensures
            ok == (self.buf[2] & 0x02 != 0),
    {
        self.buf[2] & 0x02 != 0
    }

    pub fn is_l2_calib_ok(&self) -> (ok: bool)
        ensures
            ok == (self.buf[2] & 0x04 != 0),
    {
        self.buf[2] & 0x04 != 0
    }

    pub fn is_r2_calib_ok(&self) -> (ok: bool)
        ensures
            ok == (self.buf[2] & 0x08 != 0),
    {
        self.buf[2] & 0x08 != 0
    }
}

impl CalibrationFlag {
    /// Reads the flags out of the response to a flag request. A frame that
    /// is no such response is refused as invalid.
    pub fn from_report(report: &Report) -> (result: Result<Self, Error>)
        ensures
            report.answers(ReportId::GetCalibFlag, 4) ==> (result matches Ok(flag) && flag.buf@
                == report@.payload()),
            !report.answers(ReportId::GetCalibFlag, 4) ==> result == Err::<Self, Error>(
                Error::InvalidReport,
            ),
    {
        match report.response_payload::<4>(ReportId::GetCalibFlag) {
            Ok(buf) => Ok(CalibrationFlag { buf }),
            Err(e) => Err(e),
        }
    }
}

impl Default for CalibrationFlag {
    fn default() -> (flag: Self)
        ensures
            flag.buf@ == seq![0x10u8, 0u8, 0u8, 0u8],
    {
        let flag = CalibrationFlag { buf: [0x10, 0, 0, 0] };
        assert(flag.buf@ =~= seq![0x10u8, 0u8, 0u8, 0u8]);
        flag
    }
}

/// The trigger calibration data, kept as the device sent it.
#[derive(Debug, Clone, Default, PartialEq, Eq)]
pub struct TriggersCalibration {
    pub buf: Vec<u8>,
}

/// A stick centre calibration with the samples it was calculated from.
#[derive(Debug)]
pub struct StickCenterCalibrationResult {
    pub calculated: StickCenterCalibration,
    pub collected: Vec<StickCenterCalibration>,
}

/// The calibration data read back after a run, shaped by its device type.
#[derive(Debug, Clone, PartialEq, Eq)]
pub enum CalibrationData {
    /// The calculated centre, then the samples behind it.
    StickCenter(StickCenterCalibration, Vec<StickCenterCalibration>),
    StickMinMax(StickMinMaxCalibration),
    Triggers(TriggersCalibration),
    /// Data of a device type whose layout is not known, kept undecoded.
    Raw(Vec<u8>),
}

/// What a `CalibrationData` holds, as sequences of bytes.
pub enum CalibrationDataView {
    StickCenter(Seq<u8>, Seq<Seq<u8>>),
    StickMinMax(Seq<u8>),
    Triggers(Seq<u8>),
    Raw(Seq<u8>),
}

impl View for CalibrationData {
    type V = CalibrationDataView;

    open spec fn view(&self) -> CalibrationDataView {
        match self {
            CalibrationData::StickCenter(calculated, samples) => CalibrationDataView::StickCenter(
                calculated.buf@,
                Seq::new(samples@.len(), |i: int| samples@[i].buf@),
            ),
            CalibrationData::StickMinMax(calibration) => CalibrationDataView::StickMinMax(
                calibration.buf@,
            ),
            CalibrationData::Triggers(calibration) => CalibrationDataView::Triggers(
                calibration.buf@,
            ),
            CalibrationData::Raw(data) => CalibrationDataView::Raw(data@),
        }
    }
}

/// The number of samples that stick centre data announces: its ninth byte,
/// or none where the data ends before it.
pub open spec fn center_sample_count(data: Seq<u8>) -> int {
    if data.len() > 8 {
        data[8] as int
    } else {
        0
    }
}

/// The number of bytes that stick centre data must have: the calculated
/// calibration, and behind a count byte eight bytes for each sample.
pub open spec fn center_data_needed(data: Seq<u8>) -> int {
    if data.len() > 8 {
        9 + 8 * center_sample_count(data)
    } else {
        8
    }
}

/// Sample `i` of stick centre data.
pub open spec fn center_sample(data: Seq<u8>, i: int) -> Seq<u8> {
    data.subrange(9 + 8 * i, 17 + 8 * i)
}

/// The calibration data that reassembled bytes stand for under a device type.
///
/// Stick centre data is the calculated calibration and the announced
/// samples; stick range data is its first sixteen bytes; trigger data is
/// kept whole; data of any other device type is kept undecoded. Stick data
/// that is too short for its shape is an error.
pub open spec fn decoded_calibration_data(
    device: CalibrationDeviceType,
    data: Seq<u8>,
) -> Result<CalibrationDataView, ParseError> {
    match device {
        CalibrationDeviceType::AnalogStick(AnalogStickCalibrationType::Center) => {
            if data.len() < center_data_needed(data) {
                Err(
                    ParseError::TruncatedCalibrationData(
                        data.len() as usize,
                        center_data_needed(data) as usize,
                    ),
                )
            } else {
                Ok(
                    CalibrationDataView::StickCenter(
                        data.subrange(0, 8),
                        Seq::new(
                            center_sample_count(data) as nat,
                            |i: int| center_sample(data, i),
                        ),
                    ),
                )
            }
        },
        CalibrationDeviceType::AnalogStick(AnalogStickCalibrationType::MinMax) => {
            if data.len() < 16 {
                Err(ParseError::TruncatedCalibrationData(data.len() as usize, 16))
            } else {
                Ok(CalibrationDataView::StickMinMax(data.subrange(0, 16)))
            }
        },
        CalibrationDeviceType::TriggerKey(_) => Ok(CalibrationDataView::Triggers(data)),
        _ => Ok(CalibrationDataView::Raw(data)),
    }
}

impl CalibrationData {
    /// Shapes reassembled bytes by the device type they were read for.
    pub fn decode(device: CalibrationDeviceType, data: Vec<u8>) -> (result: Result<
        CalibrationData,
        ParseError,
    >)
        ensures
            match result {
                Ok(calibration) => decoded_calibration_data(device, data@) == Ok::<
                    CalibrationDataView,
                    ParseError,
                >(calibration@),
                Err(e) => decoded_calibration_data(device, data@) == Err::<
                    CalibrationDataView,
                    ParseError,
                >(e),
            },
    {
        match device {
            CalibrationDeviceType::AnalogStick(AnalogStickCalibrationType::Center) => {
                let len = data.len();
                if len < 8 {
                    return Err(ParseError::TruncatedCalibrationData(len, 8));
                }
                let count: usize = if len > 8 {
                    data[8] as usize
                } else {
                    0
                };
                if len > 8 && len < 9 + 8 * count {
                    return Err(ParseError::TruncatedCalibrationData(len, 9 + 8 * count));
                }
                let calculated = StickCenterCalibration {
                    buf: array_from::<8>(data.as_slice(), 0),
                };
                let mut samples: Vec<StickCenterCalibration> = Vec::new();
                let mut i: usize = 0;
                while i < count
                    invariant
                        i <= count,
                        count <= 255,
                        count > 0 ==> data@.len() >= 9 + 8 * count,
                        samples@.len() == i,
                        forall|k: int| 0 <= k < i ==> samples@[k].buf@ == center_sample(data@, k),
                    decreases count - i,
                {
                    let sample = StickCenterCalibration {
                        buf: array_from::<8>(data.as_slice(), 9 + 8 * i),
                    };
                    samples.push(sample);
                    i += 1;
                }
                let calibration = CalibrationData::StickCenter(calculated, samples);
                proof {
                    let expected = Seq::new(
                        center_sample_count(data@) as nat,
                        |i: int| center_sample(data@, i),
                    );
                    let got = Seq::new(samples@.len(), |i: int| samples@[i].buf@);
                    assert(got =~= expected);
                }
                Ok(calibration)
            },
            CalibrationDeviceType::AnalogStick(AnalogStickCalibrationType::MinMax) => {
                let len = data.len();
                if len < 16 {
                    return Err(ParseError::TruncatedCalibrationData(len, 16));
                }
                Ok(
                    CalibrationData::StickMinMax(
                        StickMinMaxCalibration { buf: array_from::<16>(data.as_slice(), 0) },
                    ),
                )
            },
            CalibrationDeviceType::TriggerKey(_) => Ok(
                CalibrationData::Triggers(TriggersCalibration { buf: data }),
            ),
            _ => Ok(CalibrationData::Raw(data)),
        }
    }
}

} // verus!
