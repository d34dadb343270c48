use crate::error::{Error, ParseError};
use crate::hid_report::{Report, ReportId};
use vstd::prelude::*;

verus! {

/// Which trigger a trigger calibration step addresses.
#[derive(Debug, Clone, Copy, PartialEq, Eq, Structural)]
pub enum TriggerKeyLeftRight {
    Unknown,
    Left,
    Right,
    Both,
}

impl TriggerKeyLeftRight {
    /// The wire byte of a side.
    pub open spec fn encoding(self) -> u8 {
        match self {
            TriggerKeyLeftRight::Unknown => 0x00,
            TriggerKeyLeftRight::Left => 0x01,
            TriggerKeyLeftRight::Right => 0x02,
            TriggerKeyLeftRight::Both => 0x03,
        }
    }

    /// The side that a wire byte names, if any.
    pub open spec fn decoding(value: u8) -> Result<Self, ParseError> {
        if value == 0x00 {
            Ok(TriggerKeyLeftRight::Unknown)
        } else if value == 0x01 {
            Ok(TriggerKeyLeftRight::Left)
        } else if value == 0x02 {
            Ok(TriggerKeyLeftRight::Right)
        } else if value == 0x03 {
            Ok(TriggerKeyLeftRight::Both)
        } else {
            Err(ParseError::InvalidTriggerKey(value))
        }
    }

    pub fn encode(&self) -> (value: u8)
        ensures
            value == self.encoding(),
    {
        match self {
            TriggerKeyLeftRight::Unknown => 0x00,
            TriggerKeyLeftRight::Left => 0x01,
            TriggerKeyLeftRight::Right => 0x02,
            TriggerKeyLeftRight::Both => 0x03,
        }
    }

    pub fn decode(value: u8) -> (side: Result<Self, ParseError>)
        ensures
            side == Self::decoding(value),
    {
        match value {
            0x00 => Ok(TriggerKeyLeftRight::Unknown),
            0x01 => Ok(TriggerKeyLeftRight::Left),
            0x02 => Ok(TriggerKeyLeftRight::Right),
            0x03 => Ok(TriggerKeyLeftRight::Both),
            _ => Err(ParseError::InvalidTriggerKey(value)),
        }
    }

    /// The side as it is shown to a user.
    pub fn label(&self) -> (text: &'static str)
        ensures
            text@ == self.label_text(),
    {
        match self {
            TriggerKeyLeftRight::Unknown => "Unknown",
            TriggerKeyLeftRight::Left => "Left",
            TriggerKeyLeftRight::Right => "Right",
            TriggerKeyLeftRight::Both => "Left and Right",
        }
    }

    pub open spec fn label_text(self) -> Seq<char> {
        match self {
            TriggerKeyLeftRight::Unknown => "Unknown"@,
            TriggerKeyLeftRight::Left => "Left"@,
            TriggerKeyLeftRight::Right => "Right"@,
            TriggerKeyLeftRight::Both => "Left and Right"@,
        }
    }
}

/// What an analog stick calibration run measures.
#[derive(Debug, Clone, Copy, PartialEq, Eq, Structural)]
pub enum AnalogStickCalibrationType {
    Center,
    MinMax,
    /// The sentinel `0xff`: no stick calibration type.
    Unset,
}

impl AnalogStickCalibrationType {
    pub open spec fn encoding(self) -> u8 {
        match self {
            AnalogStickCalibrationType::Center => 0x01,
            AnalogStickCalibrationType::MinMax => 0x02,
            AnalogStickCalibrationType::Unset => 0xff,
        }
    }

    pub open spec fn decoding(value: u8) -> Result<Self, ParseError> {
        if value == 0x01 {
            Ok(AnalogStickCalibrationType::Center)
        } else if value == 0x02 {
            Ok(AnalogStickCalibrationType::MinMax)
        } else if value == 0xff {
            Ok(AnalogStickCalibrationType::Unset)
        } else {
            Err(ParseError::InvalidAnalogStickCalibrationType(value))
        }
    }

    pub fn encode(&self) -> (value: u8)
        ensures
            value == self.encoding(),
    {
        match self {
            AnalogStickCalibrationType::Center => 0x01,
            AnalogStickCalibrationType::MinMax => 0x02,
            AnalogStickCalibrationType::Unset => 0xff,
        }
    }

    pub fn decode(value: u8) -> (kind: Result<Self, ParseError>)
        ensures
            kind == Self::decoding(value),
    {
        match value {
            0x01 => Ok(AnalogStickCalibrationType::Center),
            0x02 => Ok(AnalogStickCalibrationType::MinMax),
            0xff => Ok(AnalogStickCalibrationType::Unset),
            _ => Err(ParseError::InvalidAnalogStickCalibrationType(value)),
        }
    }
}

/// The phase of a trigger calibration run, with the side it addresses.
#[derive(Debug, Clone, Copy, PartialEq, Eq, Structural)]
pub enum TriggerKeyCalibrationType {
    RecordMaxSample(TriggerKeyLeftRight),
    RecordRangeSample(TriggerKeyLeftRight),
    RecordMinSample(TriggerKeyLeftRight),
    Unknown(TriggerKeyLeftRight),
    /// The sentinel `0xff`: no trigger calibration phase.
    Unset,
}

impl TriggerKeyCalibrationType {
    /// The two wire bytes of a phase: its tag, then the side.
    pub open spec fn encoding(self) -> [u8; 2] {
        match self {
            TriggerKeyCalibrationType::RecordMaxSample(lr) => [0x01, lr.encoding()],
            TriggerKeyCalibrationType::RecordRangeSample(lr) => [0x02, lr.encoding()],
            TriggerKeyCalibrationType::RecordMinSample(lr) => [0x03, lr.encoding()],
            TriggerKeyCalibrationType::Unknown(lr) => [0x00, lr.encoding()],
            TriggerKeyCalibrationType::Unset => [0xff, 0x00],
        }
    }

    /// The phase that two wire bytes name. Behind the sentinel tag the side
    /// byte is not looked at; behind any other known tag it must name a side.
    pub open spec fn decoding(value: [u8; 2]) -> Result<Self, ParseError> {
        if value[0] == 0xff {
            Ok(TriggerKeyCalibrationType::Unset)
        } else if value[0] > 0x03 {
            Err(ParseError::InvalidTriggerKeyCalibrationType(value[0]))
        } else {
            match TriggerKeyLeftRight::decoding(value[1]) {
                Err(e) => Err(e),
                Ok(lr) => if value[0] == 0x01 {
                    Ok(TriggerKeyCalibrationType::RecordMaxSample(lr))
                } else if value[0] == 0x02 {
                    Ok(TriggerKeyCalibrationType::RecordRangeSample(lr))
                } else if value[0] == 0x03 {
                    Ok(TriggerKeyCalibrationType::RecordMinSample(lr))
                } else {
                    Ok(TriggerKeyCalibrationType::Unknown(lr))
                },
            }
        }
    }

    pub fn encode(&self) -> (value: [u8; 2])
        ensures
            value == self.encoding(),
    {
        let value = match self {
            TriggerKeyCalibrationType::RecordMaxSample(lr) => [0x01, lr.encode()],
            TriggerKeyCalibrationType::RecordRangeSample(lr) => [0x02, lr.encode()],
            TriggerKeyCalibrationType::RecordMinSample(lr) => [0x03, lr.encode()],
            TriggerKeyCalibrationType::Unknown(lr) => [0x00, lr.encode()],
            TriggerKeyCalibrationType::Unset => [0xff, 0x00],
        };
        assert(value =~= self.encoding());
        value
    }

    pub fn decode(value: [u8; 2]) -> (phase: Result<Self, ParseError>)
        ensures
            phase == Self::decoding(value),
    {
        match value[0] {
            0x01 => match TriggerKeyLeftRight::decode(value[1]) {
                Ok(lr) => Ok(TriggerKeyCalibrationType::RecordMaxSample(lr)),
                Err(e) => Err(e),
            },
            0x02 => match TriggerKeyLeftRight::decode(value[1]) {
                Ok(lr) => Ok(TriggerKeyCalibrationType::RecordRangeSample(lr)),
                Err(e) => Err(e),
            },
            0x03 => match TriggerKeyLeftRight::decode(value[1]) {
                Ok(lr) => Ok(TriggerKeyCalibrationType::RecordMinSample(lr)),
                Err(e) => Err(e),
            },
            0x00 => match TriggerKeyLeftRight::decode(value[1]) {
                Ok(lr) => Ok(TriggerKeyCalibrationType::Unknown(lr)),
                Err(e) => Err(e),
            },
            0xff => Ok(TriggerKeyCalibrationType::Unset),
            _ => Err(ParseError::InvalidTriggerKeyCalibrationType(value[0])),
        }
    }
}

/// The device, and the part of it, that a calibration run is about.
#[derive(Debug, Clone, Copy, PartialEq, Eq, Structural)]
pub enum CalibrationDeviceType {
    AnalogStick(AnalogStickCalibrationType),
    MotionSensor,
    TriggerKey(TriggerKeyCalibrationType),
    /// The sentinel `0xff`: no device.
    Unset,
}

impl CalibrationDeviceType {
    /// The four wire bytes of a device type.
    pub open spec fn encoding(self) -> [u8; 4] {
        match self {
            CalibrationDeviceType::AnalogStick(kind) => [0x01, kind.encoding(), 0x00, 0x00],
            CalibrationDeviceType::MotionSensor => [0x02, 0x00, 0x00, 0x00],
            CalibrationDeviceType::TriggerKey(phase) => [
                0x03,
                phase.encoding()[0],
                phase.encoding()[1],
                0x00,
            ],
            CalibrationDeviceType::Unset => [0xff, 0xff, 0x00, 0x00],
        }
    }

    /// The device type that four wire bytes name. Behind the sentinel tag
    /// nothing more is looked at; every other shape is fixed to the byte.
    pub open spec fn decoding(value: [u8; 4]) -> Result<Self, ParseError> {
        if value[0] == 0x01 && value[2] == 0x00 && value[3] == 0x00 {
            match AnalogStickCalibrationType::decoding(value[1]) {
                Ok(kind) => Ok(CalibrationDeviceType::AnalogStick(kind)),
                Err(e) => Err(e),
            }
        } else if value[0] == 0x02 && value[1] == 0x00 && value[2] == 0x00 && value[3] == 0x00 {
            Ok(CalibrationDeviceType::MotionSensor)
        } else if value[0] == 0x03 && value[3] == 0x00 {
            match TriggerKeyCalibrationType::decoding([value[1], value[2]]) {
                Ok(phase) => Ok(CalibrationDeviceType::TriggerKey(phase)),
                Err(e) => Err(e),
            }
        } else if value[0] == 0xff {
            Ok(CalibrationDeviceType::Unset)
        } else {
            Err(ParseError::InvalidCalibrationDeviceType(value))
        }
    }

    pub fn encode(&self) -> (value: [u8; 4])
        ensures
            value == self.encoding(),
    {
        let value = match self {
            CalibrationDeviceType::AnalogStick(kind) => [0x01, kind.encode(), 0x00, 0x00],
            CalibrationDeviceType::MotionSensor => [0x02, 0x00, 0x00, 0x00],
            CalibrationDeviceType::TriggerKey(phase) => {
                let inner = phase.encode();
                [0x03, inner[0], inner[1], 0x00]
            },
            CalibrationDeviceType::Unset => [0xff, 0xff, 0x00, 0x00],
        };
        assert(value =~= self.encoding());
        value
    }

    pub fn decode(value: [u8; 4]) -> (device: Result<Self, ParseError>)
        ensures
            device == Self::decoding(value),
    {
        if value[0] == 0x01 && value[2] == 0x00 && value[3] == 0x00 {
            match AnalogStickCalibrationType::decode(value[1]) {
                Ok(kind) => Ok(CalibrationDeviceType::AnalogStick(kind)),
                Err(e) => Err(e),
            }
        } else if value[0] == 0x02 && value[1] == 0x00 && value[2] == 0x00 && value[3] == 0x00 {
            Ok(CalibrationDeviceType::MotionSensor)
        } else if value[0] == 0x03 && value[3] == 0x00 {
            let inner = [value[1], value[2]];
            assert(inner =~= [value[1], value[2]]);
            match TriggerKeyCalibrationType::decode(inner) {
                Ok(phase) => Ok(CalibrationDeviceType::TriggerKey(phase)),
                Err(e) => Err(e),
            }
        } else if value[0] == 0xff {
            Ok(CalibrationDeviceType::Unset)
        } else {
            Err(ParseError::InvalidCalibrationDeviceType(value))
        }
    }

    /// Tells whether this is the sentinel.
    pub fn is_unset(&self) -> (unset: bool)
        ensures
            unset == (*self == CalibrationDeviceType::Unset),
    {
        match self {
            CalibrationDeviceType::Unset => true,
            _ => false,
        }
    }
}

/// A calibration command: what to do, and to which device.
#[derive(Debug, Clone, Copy, PartialEq, Eq, Structural)]
pub enum CalibrationType {
    Start(CalibrationDeviceType),
    Stop(CalibrationDeviceType),
    Measure(CalibrationDeviceType),
    /// The sentinel `0xff`: no command.
    Unset,
}

impl CalibrationType {
    /// The five wire bytes of a command: the opcode, then the device type.
    pub open spec fn encoding(self) -> [u8; 5] {
        match self {
            CalibrationType::Start(device) => [
                0x01,
                device.encoding()[0],
                device.encoding()[1],
                device.encoding()[2],
                device.encoding()[3],
            ],
            CalibrationType::Stop(device) => [
                0x02,
                device.encoding()[0],
                device.encoding()[1],
                device.encoding()[2],
                device.encoding()[3],
            ],
            CalibrationType::Measure(device) => [
                0x03,
                device.encoding()[0],
                device.encoding()[1],
                device.encoding()[2],
                device.encoding()[3],
            ],
            CalibrationType::Unset => [0xff, 0xff, 0xff, 0x00, 0x00],
        }
    }

    /// The command that five wire bytes name. Behind the sentinel opcode
    /// nothing more is looked at.
    pub open spec fn decoding(value: [u8; 5]) -> Result<Self, ParseError> {
        if value[0] == 0xff {
            Ok(CalibrationType::Unset)
        } else if value[0] == 0x01 || value[0] == 0x02 || value[0] == 0x03 {
            match CalibrationDeviceType::decoding([value[1], value[2], value[3], value[4]]) {
                Err(e) => Err(e),
                Ok(device) => if value[0] == 0x01 {
                    Ok(CalibrationType::Start(device))
                } else if value[0] == 0x02 {
                    Ok(CalibrationType::Stop(device))
                } else {
                    Ok(CalibrationType::Measure(device))
                },
            }
        } else {
            Err(ParseError::InvalidCalibrationType(value))
        }
    }

    pub fn encode(&self) -> (value: [u8; 5])
        ensures
            value == self.encoding(),
    {
        let value = match self {
            CalibrationType::Start(device) => {
                let inner = device.encode();
                [0x01, inner[0], inner[1], inner[2], inner[3]]
            },
            CalibrationType::Stop(device) => {
                let inner = device.encode();
                [0x02, inner[0], inner[1], inner[2], inner[3]]
            },
            CalibrationType::Measure(device) => {
                let inner = device.encode();
                [0x03, inner[0], inner[1], inner[2], inner[3]]
            },
            CalibrationType::Unset => [0xff, 0xff, 0xff, 0x00, 0x00],
        };
        assert(value =~= self.encoding());
        value
    }

    pub fn decode(value: [u8; 5]) -> (command: Result<Self, ParseError>)
        ensures
            command == Self::decoding(value),
    {
        let opcode = value[0];
        if opcode == 0xff {
            Ok(CalibrationType::Unset)
        } else if opcode == 0x01 || opcode == 0x02 || opcode == 0x03 {
            let inner = [value[1], value[2], value[3], value[4]];
            assert(inner =~= [value[1], value[2], value[3], value[4]]);
            match CalibrationDeviceType::decode(inner) {
                Err(e) => Err(e),
                Ok(device) => if opcode == 0x01 {
                    Ok(CalibrationType::Start(device))
                } else if opcode == 0x02 {
                    Ok(CalibrationType::Stop(device))
                } else {
                    Ok(CalibrationType::Measure(device))
                },
            }
        } else {
            Err(ParseError::InvalidCalibrationType(value))
        }
    }
}

impl CalibrationType {
    /// The frame that carries the command.
    pub fn report(&self) -> (report: Report)
        ensures
            report@.id == ReportId::SetCalibrationCommand,
            report@.data == seq![0x90u8] + self.encoding()@,
    {
        let payload = self.encode();
        Report::from_payload(ReportId::SetCalibrationCommand, payload.as_slice())
    }
}

/// What the device says of the calibration run in progress.
#[derive(Debug, Clone, Copy, PartialEq, Eq, Structural)]
pub enum CalibrationState {
    Started(CalibrationDeviceType),
    Finished(CalibrationDeviceType),
    /// No calibration is active.
    Unknown,
}

impl CalibrationState {
    /// The state that three wire bytes name: two bytes of device type, then
    /// the state byte. Behind the trailer `0xff` the device bytes are not
    /// looked at.
    pub open spec fn decoding(value: [u8; 3]) -> Result<Self, ParseError> {
        if value[2] == 0x01 || value[2] == 0x02 {
            match CalibrationDeviceType::decoding([value[0], value[1], 0x00, 0x00]) {
                Err(e) => Err(e),
                Ok(device) => if value[2] == 0x01 {
                    Ok(CalibrationState::Started(device))
                } else {
                    Ok(CalibrationState::Finished(device))
                },
            }
        } else if value[2] == 0xff {
            Ok(CalibrationState::Unknown)
        } else {
            Err(ParseError::InvalidCalibrationState(value))
        }
    }

    pub fn decode(value: [u8; 3]) -> (state: Result<Self, ParseError>)
        ensures
            state == Self::decoding(value),
    {
        let trailer = value[2];
        if trailer == 0x01 || trailer == 0x02 {
            let inner = [value[0], value[1], 0x00, 0x00];
            assert(inner =~= [value[0], value[1], 0x00, 0x00]);
            match CalibrationDeviceType::decode(inner) {
                Err(e) => Err(e),
                Ok(device) => if trailer == 0x01 {
                    Ok(CalibrationState::Started(device))
                } else {
                    Ok(CalibrationState::Finished(device))
                },
            }
        } else if trailer == 0xff {
            Ok(CalibrationState::Unknown)
        } else {
            Err(ParseError::InvalidCalibrationState(value))
        }
    }
}

impl CalibrationState {
    /// Reads the state out of the response to a state request. A frame
    /// that is no such response is refused as invalid; a payload that names
    /// no state is a protocol error.
    pub fn from_report(report: &Report) -> (result: Result<Self, Error>)
        ensures
            !report.answers(ReportId::GetCalibrationState, 3) ==> result == Err::<Self, Error>(
                Error::InvalidReport,
            ),
            report.answers(ReportId::GetCalibrationState, 3) ==> result == match Self::decoding(
                [report@.payload()[0], report@.payload()[1], report@.payload()[2]],
            ) {
                Ok(state) => Ok::<Self, Error>(state),
                Err(e) => Err(Error::Protocol(e)),
            },
    {
        let payload = match report.response_payload::<3>(ReportId::GetCalibrationState) {
            Ok(payload) => payload,
            Err(e) => {
                return Err(e);
            },
        };
        assert(payload =~= [report@.payload()[0], report@.payload()[1], report@.payload()[2]]);
        match Self::decode(payload) {
            Ok(state) => Ok(state),
            Err(e) => Err(Error::Protocol(e)),
        }
    }
}

/// How a finished calibration run ended.
#[derive(Debug, Clone, Copy, PartialEq, Eq, Structural)]
pub enum CalibrationResult {
    Completed(CalibrationDeviceType),
    NotCompleted(CalibrationDeviceType),
}

impl CalibrationResult {
    /// The result that three wire bytes name: two bytes of device type, then
    /// the result byte.
    pub open spec fn decoding(value: [u8; 3]) -> Result<Self, ParseError> {
        if value[2] == 0x01 || value[2] == 0xff {
            match CalibrationDeviceType::decoding([value[0], value[1], 0x00, 0x00]) {
                Err(e) => Err(e),
                Ok(device) => if value[2] == 0x01 {
                    Ok(CalibrationResult::Completed(device))
                } else {
                    Ok(CalibrationResult::NotCompleted(device))
                },
            }
        } else {
            Err(ParseError::InvalidCalibrationResult(value))
        }
    }

    pub fn decode(value: [u8; 3]) -> (result: Result<Self, ParseError>)
        ensures
            result == Self::decoding(value),
    {
        let trailer = value[2];
        if trailer == 0x01 || trailer == 0xff {
            let inner = [value[0], value[1], 0x00, 0x00];
            assert(inner =~= [value[0], value[1], 0x00, 0x00]);
            match CalibrationDeviceType::decode(inner) {
                Err(e) => Err(e),
                Ok(device) => if trailer == 0x01 {
                    Ok(CalibrationResult::Completed(device))
                } else {
                    Ok(CalibrationResult::NotCompleted(device))
                },
            }
        } else {
            Err(ParseError::InvalidCalibrationResult(value))
        }
    }
}

impl CalibrationResult {
    /// Reads the result out of the response to a result request. A frame
    /// that is no such response is refused as invalid; a payload that names
    /// no result is a protocol error.
    pub fn from_report(report: &Report) -> (result: Result<Self, Error>)
        ensures
            !report.answers(ReportId::GetCalibrationResult, 3) ==> result == Err::<Self, Error>(
                Error::InvalidReport,
            ),
            report.answers(ReportId::GetCalibrationResult, 3) ==> result == match Self::decoding(
                [report@.payload()[0], report@.payload()[1], report@.payload()[2]],
            ) {
                Ok(outcome) => Ok::<Self, Error>(outcome),
                Err(e) => Err(Error::Protocol(e)),
            },
    {
        let payload = match report.response_payload::<3>(ReportId::GetCalibrationResult) {
            Ok(payload) => payload,
            Err(e) => {
                return Err(e);
            },
        };
        assert(payload =~= [report@.payload()[0], report@.payload()[1], report@.payload()[2]]);
        match Self::decode(payload) {
            Ok(outcome) => Ok(outcome),
            Err(e) => Err(Error::Protocol(e)),
        }
    }
}

/// Decoding the wire byte of a trigger side gives the side back.
pub proof fn lemma_trigger_side_round_trip(side: TriggerKeyLeftRight)
    ensures
        TriggerKeyLeftRight::decoding(side.encoding()) == Ok::<TriggerKeyLeftRight, ParseError>(
            side,
        ),
{
}

/// Decoding the wire byte of a stick calibration type gives the type back.
pub proof fn lemma_analog_stick_round_trip(kind: AnalogStickCalibrationType)
    ensures
        AnalogStickCalibrationType::decoding(kind.encoding()) == Ok::<
            AnalogStickCalibrationType,
            ParseError,
        >(kind),
{
}

/// Decoding the wire bytes of a trigger calibration phase gives the phase
/// back, the sentinel included.
pub proof fn lemma_trigger_phase_round_trip(phase: TriggerKeyCalibrationType)
    ensures
        TriggerKeyCalibrationType::decoding(phase.encoding()) == Ok::<
            TriggerKeyCalibrationType,
            ParseError,
        >(phase),
{
    match phase {
        TriggerKeyCalibrationType::RecordMaxSample(lr) => lemma_trigger_side_round_trip(lr),
        TriggerKeyCalibrationType::RecordRangeSample(lr) => lemma_trigger_side_round_trip(lr),
        TriggerKeyCalibrationType::RecordMinSample(lr) => lemma_trigger_side_round_trip(lr),
        TriggerKeyCalibrationType::Unknown(lr) => lemma_trigger_side_round_trip(lr),
        TriggerKeyCalibrationType::Unset => {},
    }
}

/// Decoding the wire bytes of a calibration device type gives the device
/// type back, for every variant and the sentinel.
pub proof fn lemma_device_type_round_trip(device: CalibrationDeviceType)
    ensures
        CalibrationDeviceType::decoding(device.encoding()) == Ok::<
            CalibrationDeviceType,
            ParseError,
        >(device),
{
    let bytes = device.encoding();
    match device {
        CalibrationDeviceType::AnalogStick(kind) => {
            lemma_analog_stick_round_trip(kind);
        },
        CalibrationDeviceType::MotionSensor => {},
        CalibrationDeviceType::TriggerKey(phase) => {
            lemma_trigger_phase_round_trip(phase);
            assert([bytes[1], bytes[2]] =~= phase.encoding());
        },
        CalibrationDeviceType::Unset => {},
    }
}

/// Decoding the wire bytes of a calibration command gives the command back,
/// for every opcode, every device type and the sentinel.
pub proof fn lemma_calibration_type_round_trip(command: CalibrationType)
    ensures
        CalibrationType::decoding(command.encoding()) == Ok::<CalibrationType, ParseError>(
            command,
        ),
{
    let bytes = command.encoding();
    match command {
        CalibrationType::Start(device) => {
            lemma_device_type_round_trip(device);
            assert([bytes[1], bytes[2], bytes[3], bytes[4]] =~= device.encoding());
        },
        CalibrationType::Stop(device) => {
            lemma_device_type_round_trip(device);
            assert([bytes[1], bytes[2], bytes[3], bytes[4]] =~= device.encoding());
        },
        CalibrationType::Measure(device) => {
            lemma_device_type_round_trip(device);
            assert([bytes[1], bytes[2], bytes[3], bytes[4]] =~= device.encoding());
        },
        CalibrationType::Unset => {},
    }
}

/// Two calibration device types with the same wire bytes are the same.
pub proof fn lemma_device_type_encoding_is_injective(
    a: CalibrationDeviceType,
    b: CalibrationDeviceType,
)
    requires
        a.encoding() == b.encoding(),
    ensures
        a == b,
{
    lemma_device_type_round_trip(a);
    lemma_device_type_round_trip(b);
}

/// Two calibration commands with the same wire bytes are the same.
pub proof fn lemma_calibration_type_encoding_is_injective(a: CalibrationType, b: CalibrationType)
    requires
        a.encoding() == b.encoding(),
    ensures
        a == b,
{
    lemma_calibration_type_round_trip(a);
    lemma_calibration_type_round_trip(b);
}

/// The wire bytes of a calibration device type are the only bytes without
/// the sentinel tag that decode to it: to encode what such bytes decode to
/// gives the bytes back. Behind the sentinel tag the other bytes are free,
/// so there the bytes come back only where they are the sentinel's own.
pub proof fn lemma_device_type_bytes_round_trip(bytes: [u8; 4])
    requires
        CalibrationDeviceType::decoding(bytes) is Ok,
        bytes[0] != 0xff,
        !(bytes[0] == 0x03 && bytes[1] == 0xff && bytes[2] != 0x00),
    ensures
        CalibrationDeviceType::decoding(bytes)->Ok_0.encoding() == bytes,
{
    let device = CalibrationDeviceType::decoding(bytes)->Ok_0;
    assert(device.encoding() =~= bytes);
}

} // verus!
