use crate::calibration::CalibrationDeviceType;
use vstd::prelude::*;

verus! {

/// A fixed-shape byte pattern that does not follow the protocol.
///
/// Each variant carries the offending bytes, so that a caller can render a
/// message or log the exact input.
#[derive(Debug, Clone, Copy, PartialEq, Eq)]
pub enum ParseError {
    /// The byte names no analog stick calibration type.
    InvalidAnalogStickCalibrationType(u8),
    /// The byte names no trigger side.
    InvalidTriggerKey(u8),
    /// The byte names no trigger calibration phase.
    InvalidTriggerKeyCalibrationType(u8),
    /// The four bytes have the shape of no calibration device type.
    InvalidCalibrationDeviceType([u8; 4]),
    /// The five bytes begin with no known calibration opcode.
    InvalidCalibrationType([u8; 5]),
    /// The three bytes end with no known calibration state.
    InvalidCalibrationState([u8; 3]),
    /// The three bytes end with no known calibration result.
    InvalidCalibrationResult([u8; 3]),
    /// Two chunks of one calibration data stream name different devices:
    /// the one seen so far, then the one that disagrees.
    MismatchDeviceType(CalibrationDeviceType, CalibrationDeviceType),
    /// A chunk declares more data bytes than a chunk can carry.
    InvalidChunkLength(u8),
    /// The reassembled calibration data is shorter than its device type
    /// demands: the number of bytes present, then the number needed.
    TruncatedCalibrationData(usize, usize),
}

/// What can go wrong in the protocol layer.
#[derive(Debug, Clone, Copy, PartialEq, Eq)]
pub enum Error {
    /// A number fell outside its domain: the number, then the domain's
    /// least member and the first number above the domain.
    OutOfRange(i64, i64, i64),
    /// A response frame does not begin with the identifier that was asked for.
    InvalidReport,
    /// A byte pattern is malformed.
    Protocol(ParseError),
}

impl Error {
    /// Wraps a parse error.
    pub fn from_parse(error: ParseError) -> (e: Error)
        ensures
            e == Error::Protocol(error),
    {
        Error::Protocol(error)
    }
}

} // verus!
