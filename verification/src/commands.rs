use crate::calibration::TriggerKeyLeftRight;
use crate::hid_report::{Report, ReportId};
use crate::wire::u16_to_be;
use vstd::prelude::*;

verus! {

/// A step of the factory calibration of the triggers' range.
#[derive(Debug, Clone, Copy, PartialEq, Eq, Structural)]
pub enum TriggerMinMaxCalibrationType {
    StartRecordMinMax(TriggerKeyLeftRight),
    SaveMin(TriggerKeyLeftRight),
    SaveMax(TriggerKeyLeftRight),
}

/// The bits that select the triggers in a factory calibration argument:
/// `0x02` for the left trigger, `0x08` for the right one.
pub open spec fn trigger_side_mask(side: TriggerKeyLeftRight) -> u8 {
    match side {
        TriggerKeyLeftRight::Unknown => 0x00,
        TriggerKeyLeftRight::Left => 0x02,
        TriggerKeyLeftRight::Right => 0x08,
        TriggerKeyLeftRight::Both => 0x0a,
    }
}

impl TriggerMinMaxCalibrationType {
    /// The side that the step addresses.
    pub open spec fn side(self) -> TriggerKeyLeftRight {
        match self {
            TriggerMinMaxCalibrationType::StartRecordMinMax(side) => side,
            TriggerMinMaxCalibrationType::SaveMin(side) => side,
            TriggerMinMaxCalibrationType::SaveMax(side) => side,
        }
    }

    /// The bits that name the step in a factory calibration argument.
    pub open spec fn step_bits(self) -> u8 {
        match self {
            TriggerMinMaxCalibrationType::StartRecordMinMax(_) => 0x40,
            TriggerMinMaxCalibrationType::SaveMin(_) => 0x80,
            TriggerMinMaxCalibrationType::SaveMax(_) => 0x00,
        }
    }

    /// The argument byte of the step: its step bits together with the bits
    /// of its side. The two share no bit, so the sum is their union.
    pub open spec fn argument(self) -> u8 {
        (self.step_bits() + trigger_side_mask(self.side())) as u8
    }

    /// The argument byte of the step.
    pub fn encode(&self) -> (argument: u8)
        ensures
            argument == self.argument(),
    {
        let (step, side): (u8, &TriggerKeyLeftRight) = match self {
            TriggerMinMaxCalibrationType::StartRecordMinMax(side) => (0x40, side),
            TriggerMinMaxCalibrationType::SaveMin(side) => (0x80, side),
            TriggerMinMaxCalibrationType::SaveMax(side) => (0x00, side),
        };
        let mask: u8 = match side {
            TriggerKeyLeftRight::Unknown => 0x00,
            TriggerKeyLeftRight::Left => 0x02,
            TriggerKeyLeftRight::Right => 0x08,
            TriggerKeyLeftRight::Both => 0x0a,
        };
        step + mask
    }
}

/// A command of the factory interface.
#[derive(Debug, Clone, Copy, PartialEq, Eq, Structural)]
pub enum FactoryCommand {
    /// Selects the byte address in the flash mirror that the next read
    /// returns.
    SetIeepAddress(u16),
    TriggerMinMaxCalibration(TriggerMinMaxCalibrationType),
}

impl FactoryCommand {
    /// The three payload bytes of a factory command: the opcode `0xff` and
    /// the address in big-endian order, or the opcode `0x02` and the
    /// calibration argument twice.
    pub open spec fn encoding(self) -> [u8; 3] {
        match self {
            FactoryCommand::SetIeepAddress(offset) => [
                0xff,
                (offset / 256) as u8,
                (offset % 256) as u8,
            ],
            FactoryCommand::TriggerMinMaxCalibration(step) => [
                0x02,
                step.argument(),
                step.argument(),
            ],
        }
    }

    pub fn encode(&self) -> (payload: [u8; 3])
        ensures
            payload == self.encoding(),
    {
        let payload = match self {
            FactoryCommand::SetIeepAddress(offset) => {
                let arg = u16_to_be(*offset);
                [0xff, arg[0], arg[1]]
            },
            FactoryCommand::TriggerMinMaxCalibration(step) => {
                let arg = step.encode();
                [0x02, arg, arg]
            },
        };
        assert(payload =~= self.encoding());
        payload
    }

    /// The frame that carries the command.
    pub fn report(&self) -> (report: Report)
        ensures
            report@.id == ReportId::SetFactoryCommand,
            report@.data == seq![0x08u8] + self.encoding()@,
    {
        let payload = self.encode();
        Report::from_payload(ReportId::SetFactoryCommand, payload.as_slice())
    }
}

/// A command of the test interface.
#[derive(Debug, Clone, Copy, PartialEq, Eq, Structural)]
pub enum TestCommand {
    /// Lets changes reach the permanent memory, or keeps them from it.
    SetPermanent(bool),
    /// Records the least (`true`) or the greatest (`false`) value of a
    /// trigger.
    RecordTriggerMinMax(TriggerKeyLeftRight, bool),
    ReloadTriggerMinMaxFromFlash,
}

impl TestCommand {
    /// Tells whether the command has an encoding. Recording a trigger value
    /// needs a side: left, right or both.
    pub open spec fn supported(self) -> bool {
        !(self matches TestCommand::RecordTriggerMinMax(TriggerKeyLeftRight::Unknown, _))
    }

    /// The payload bytes of a test command.
    pub open spec fn payload(self) -> Seq<u8> {
        match self {
            TestCommand::SetPermanent(true) => seq![0x0au8, 0x02u8, 0x3eu8, 0x71u8, 0x7fu8, 0x89u8],
            TestCommand::SetPermanent(false) => seq![0x0au8, 0x01u8, 0x00u8],
            TestCommand::RecordTriggerMinMax(side, least) => seq![
                0x08u8,
                0x01u8,
                match side {
                    TriggerKeyLeftRight::Left => 0x01u8,
                    TriggerKeyLeftRight::Right => 0x02u8,
                    _ => 0x00u8,
                },
                if least {
                    0x01u8
                } else {
                    0x00u8
                },
            ],
            TestCommand::ReloadTriggerMinMaxFromFlash => seq![0x08u8, 0x02u8],
        }
    }

    /// Tells whether the command has an encoding.
    pub fn is_supported(&self) -> (supported: bool)
        ensures
            supported == self.supported(),
    {
        match self {
            TestCommand::RecordTriggerMinMax(TriggerKeyLeftRight::Unknown, _) => false,
            _ => true,
        }
    }

    /// The frame that carries the command.
    pub fn report(&self) -> (report: Report)
        requires
            self.supported(),
        ensures
            report@.id == ReportId::SetTestCommand,
            report@.data == seq![0xa0u8] + self.payload(),
    {
        let mut payload: Vec<u8> = Vec::new();
        match self {
            TestCommand::SetPermanent(true) => {
                payload.push(0x0a);
                payload.push(0x02);
                payload.push(0x3e);
                payload.push(0x71);
                payload.push(0x7f);
                payload.push(0x89);
            },
            TestCommand::SetPermanent(false) => {
                payload.push(0x0a);
                payload.push(0x01);
                payload.push(0x00);
            },
            TestCommand::RecordTriggerMinMax(side, least) => {
                payload.push(0x08);
                payload.push(0x01);
                payload.push(
                    match side {
                        TriggerKeyLeftRight::Left => 0x01,
                        TriggerKeyLeftRight::Right => 0x02,
                        _ => 0x00,
                    },
                );
                payload.push(
                    if *least {
                        0x01
                    } else {
                        0x00
                    },
                );
            },
            TestCommand::ReloadTriggerMinMaxFromFlash => {
                payload.push(0x08);
                payload.push(0x02);
            },
        }
        assert(payload@ =~= self.payload());
        Report::from_payload(ReportId::SetTestCommand, payload.as_slice())
    }
}

} // verus!
