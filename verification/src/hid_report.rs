use crate::error::Error;
use vstd::prelude::*;

verus! {

/// The identifiers of the feature reports that the controller knows: a
/// closed catalogue, one identifier for each purpose.
#[derive(Debug, Clone, Copy, PartialEq, Eq, Structural)]
pub enum ReportId {
    /// The input telemetry snapshot.
    InputReport,
    /// Output to the device: rumble and light bar.
    OutputDevice,
    /// Reads the motion calibration block.
    GetMotionCalibData,
    /// Writes the motion calibration block.
    SetMotionCalibData,
    /// Sends a factory command.
    SetFactoryCommand,
    /// Reads the calibration flags.
    GetCalibFlag,
    /// Reads two bytes of the flash mirror.
    GetIeepData,
    /// Reads the pairing information.
    GetParingInfo,
    /// Writes the pairing information.
    SetParingInfo,
    /// Switches between USB and Bluetooth.
    SetUsbBtControl,
    /// Writes the Bluetooth device address.
    SetBdAdr,
    /// Reads the Bluetooth device address.
    GetBdAdr,
    /// Writes factory data.
    SetFactoryData,
    /// Selects the factory data to read.
    SetAdrToGetFactoryData,
    /// Reads factory data.
    GetFactoryData,
    /// Writes the board identifier.
    SetPcbaId,
    /// Reads the board identifier.
    GetPcbaId,
    /// Reads the track record.
    GetTrackRecord,
    /// Sends a calibration command.
    SetCalibrationCommand,
    /// Reads the calibration state.
    GetCalibrationState,
    /// Reads the calibration result.
    GetCalibrationResult,
    /// Reads one chunk of calibration data.
    GetCalibrationData,
    /// Sends a test command.
    SetTestCommand,
    /// Switches Bluetooth on or off.
    SetBtEnable,
    /// Switches firmware update mode on or off.
    SetDfuEnable,
    /// Reads the firmware information.
    GetFirmInfo,
    /// Reads the answer to a test command.
    GetTestData,
}

impl ReportId {
    /// The identifier's byte on the wire.
    pub open spec fn byte(self) -> u8 {
        match self {
            ReportId::InputReport => 0x01,
            ReportId::OutputDevice => 0x05,
            ReportId::GetMotionCalibData => 0x02,
            ReportId::SetMotionCalibData => 0x04,
            ReportId::SetFactoryCommand => 0x08,
            ReportId::GetCalibFlag => 0x10,
            ReportId::GetIeepData => 0x11,
            ReportId::GetParingInfo => 0x12,
            ReportId::SetParingInfo => 0x13,
            ReportId::SetUsbBtControl => 0x14,
            ReportId::SetBdAdr => 0x80,
            ReportId::GetBdAdr => 0x81,
            ReportId::SetFactoryData => 0x82,
            ReportId::SetAdrToGetFactoryData => 0x83,
            ReportId::GetFactoryData => 0x84,
            ReportId::SetPcbaId => 0x85,
            ReportId::GetPcbaId => 0x86,
            ReportId::GetTrackRecord => 0x87,
            ReportId::SetCalibrationCommand => 0x90,
            ReportId::GetCalibrationState => 0x91,
            ReportId::GetCalibrationResult => 0x92,
            ReportId::GetCalibrationData => 0x93,
            ReportId::SetTestCommand => 0xa0,
            ReportId::SetBtEnable => 0xa1,
            ReportId::SetDfuEnable => 0xa2,
            ReportId::GetFirmInfo => 0xa3,
            ReportId::GetTestData => 0xa4,
        }
    }

    /// The identifier's byte on the wire.
    pub fn to_byte(&self) -> (byte: u8)
        ensures
            byte == self.byte(),
    {
        match self {
            ReportId::InputReport => 0x01,
            ReportId::OutputDevice => 0x05,
            ReportId::GetMotionCalibData => 0x02,
            ReportId::SetMotionCalibData => 0x04,
            ReportId::SetFactoryCommand => 0x08,
            ReportId::GetCalibFlag => 0x10,
            ReportId::GetIeepData => 0x11,
            ReportId::GetParingInfo => 0x12,
            ReportId::SetParingInfo => 0x13,
            ReportId::SetUsbBtControl => 0x14,
            ReportId::SetBdAdr => 0x80,
            ReportId::GetBdAdr => 0x81,
            ReportId::SetFactoryData => 0x82,
            ReportId::SetAdrToGetFactoryData => 0x83,
            ReportId::GetFactoryData => 0x84,
            ReportId::SetPcbaId => 0x85,
            ReportId::GetPcbaId => 0x86,
            ReportId::GetTrackRecord => 0x87,
            ReportId::SetCalibrationCommand => 0x90,
            ReportId::GetCalibrationState => 0x91,
            ReportId::GetCalibrationResult => 0x92,
            ReportId::GetCalibrationData => 0x93,
            ReportId::SetTestCommand => 0xa0,
            ReportId::SetBtEnable => 0xa1,
            ReportId::SetDfuEnable => 0xa2,
            ReportId::GetFirmInfo => 0xa3,
            ReportId::GetTestData => 0xa4,
        }
    }
}

/// What a `Report` holds: the identifier it was made for, and the bytes of
/// the frame, identifier byte first.
pub struct ReportView {
    pub id: ReportId,
    pub data: Seq<u8>,
}

impl ReportView {
    /// The frame without its leading identifier byte.
    pub open spec fn payload(self) -> Seq<u8> {
        if self.data.len() >= 1 {
            self.data.subrange(1, self.data.len() as int)
        } else {
            Seq::empty()
        }
    }

    /// Tells whether the frame begins with the identifier it was made for.
    /// A frame without bytes begins with none.
    pub open spec fn valid(self) -> bool {
        self.data.len() >= 1 && self.data[0] == self.id.byte()
    }
}

/// The frame of a request: the identifier byte, then `payload_size` zero
/// bytes.
pub open spec fn request_frame(id: ReportId, payload_size: int) -> ReportView {
    ReportView {
        id,
        data: Seq::new(
            (payload_size + 1) as nat,
            |i: int|
                if i == 0 {
                    id.byte()
                } else {
                    0u8
                },
        ),
    }
}

/// A wire frame: one identifier byte, then the payload.
#[derive(Debug)]
pub struct Report {
    id: ReportId,
    data: Vec<u8>,
}

impl View for Report {
    type V = ReportView;

    closed spec fn view(&self) -> ReportView {
        ReportView { id: self.id, data: self.data@ }
    }
}

impl Report {
    /// A request frame: the identifier, then `payload_size` zero bytes for
    /// the transport to fill in place.
    pub fn new(id: ReportId, payload_size: usize) -> (report: Self)
        requires
            payload_size < usize::MAX,
        ensures
            report@ == request_frame(id, payload_size as int),
            report@.valid(),
            report@.payload().len() == payload_size,
    {
        let mut data: Vec<u8> = Vec::new();
        data.push(id.to_byte());
        let mut i: usize = 0;
        while i < payload_size
            invariant
                i <= payload_size,
                data@.len() == i + 1,
                data@[0] == id.byte(),
                forall|k: int| 1 <= k <= i ==> data@[k] == 0,
            decreases payload_size - i,
        {
            data.push(0u8);
            i += 1;
        }
        assert(data@ =~= request_frame(id, payload_size as int).data);
        Report { id, data }
    }

    /// A command frame: the identifier, then a copy of the payload.
    pub fn from_payload(id: ReportId, payload: &[u8]) -> (report: Self)
        ensures
            report@.id == id,
            report@.data == seq![id.byte()] + payload@,
            report@.payload() == payload@,
            report@.valid(),
    {
        let mut data: Vec<u8> = Vec::new();
        data.push(id.to_byte());
        let mut i: usize = 0;
        while i < payload.len()
            invariant
                i <= payload@.len(),
                data@ == seq![id.byte()] + payload@.take(i as int),
            decreases payload@.len() - i,
        {
            data.push(payload[i]);
            i += 1;
            assert(seq![id.byte()] + payload@.take(i as int) =~= (seq![id.byte()]
                + payload@.take(i - 1)).push(payload@[i - 1]));
        }
        assert(payload@.take(i as int) =~= payload@);
        assert((seq![id.byte()] + payload@).subrange(1, payload@.len() as int + 1) =~= payload@);
        Report { id, data }
    }

    /// The whole frame, for the transport to write into.
    pub fn data_mut(&mut self) -> (data: &mut [u8])
        ensures
            data@ == old(self)@.data,
            final(self)@.id == old(self)@.id,
            final(self)@.data == final(data)@,
    {
        self.data.as_mut_slice()
    }

    /// The payload, for the transport to write into.
    pub fn payload_mut(&mut self) -> (payload: &mut [u8])
        ensures
            payload@ == old(self)@.payload(),
            final(payload)@.len() == payload@.len() ==> final(self)@.payload() == final(payload)@,
            final(self)@.id == old(self)@.id,
            old(self)@.data.len() >= 1 ==> final(self)@.data == seq![old(self)@.data[0]]
                + final(payload)@,
    {
        let mid: usize = if self.data.len() >= 1 {
            1
        } else {
            0
        };
        let ghost before = self.data@;
        let (head, tail) = self.data.as_mut_slice().split_at_mut(mid);
        assert(mid == 1 ==> final(head)@ =~= seq![before[0]]);
        assert(mid == 1 && final(tail)@.len() == tail@.len() ==> (final(head)@ + final(tail)@).subrange(
            1,
            final(tail)@.len() as int + 1,
        ) =~= final(tail)@);
        assert(mid == 0 ==> final(head)@ + final(tail)@ =~= final(tail)@);
        tail
    }

    /// The whole frame, identifier byte first.
    pub fn data(&self) -> (data: &[u8])
        ensures
            data@ == self@.data,
    {
        self.data.as_slice()
    }

    /// The identifier that the frame was made for.
    pub fn id(&self) -> (id: &ReportId)
        ensures
            *id == self@.id,
    {
        &self.id
    }

    /// The frame without its leading identifier byte.
    pub fn payload(&self) -> (payload: &[u8])
        ensures
            payload@ == self@.payload(),
    {
        let len = self.data.len();
        if len >= 1 {
            vstd::slice::slice_subrange(self.data.as_slice(), 1, len)
        } else {
            vstd::slice::slice_subrange(self.data.as_slice(), 0, 0)
        }
    }

    /// Tells whether the frame begins with the identifier it was made for.
    /// The payload has no part in the answer.
    pub fn valid(&self) -> (valid: bool)
        ensures
            valid == self@.valid(),
            self@.data.len() >= 1 ==> valid == (self@.data[0] == self@.id.byte()),
    {
        self.data.len() >= 1 && self.data[0] == self.id.to_byte()
    }

    /// Accepts a response frame that begins with the identifier that was
    /// asked for, and refuses every other.
    pub fn checked(self) -> (result: Result<Report, Error>)
        ensures
            self@.valid() ==> (result matches Ok(report) && report@ == self@),
            !self@.valid() ==> result == Err::<Report, Error>(Error::InvalidReport),
    {
        if self.valid() {
            Ok(self)
        } else {
            Err(Error::InvalidReport)
        }
    }
}

impl Report {
    /// Tells whether the frame answers a request for `id` with a payload of
    /// `size` bytes: it was made for that identifier, it begins with it, and
    /// it has that many bytes behind it.
    pub open spec fn answers(&self, id: ReportId, size: int) -> bool {
        self@.id == id && self@.valid() && self@.payload().len() == size
    }

    /// The payload of a response to a request for `id`, as an array of the
    /// size that was asked for. A frame that was made for another
    /// identifier, begins with another byte or has another size is refused.
    pub fn response_payload<const N: usize>(&self, id: ReportId) -> (result: Result<
        [u8; N],
        Error,
    >)
        ensures
            self.answers(id, N as int) ==> (result matches Ok(payload) && payload@
                == self@.payload()),
            !self.answers(id, N as int) ==> result == Err::<[u8; N], Error>(Error::InvalidReport),
    {
        if self.id != id || !self.valid() {
            return Err(Error::InvalidReport);
        }
        let payload = self.payload();
        if payload.len() != N {
            return Err(Error::InvalidReport);
        }
        let array = crate::wire::array_from::<N>(payload, 0);
        assert(payload@.subrange(0, N as int) =~= payload@);
        Ok(array)
    }
}

/// Whether a frame is valid hangs on its first byte alone: two frames made
/// for one identifier that begin with the same byte are both valid or both
/// invalid, whatever their payloads hold.
pub proof fn lemma_validity_ignores_payload(a: ReportView, b: ReportView)
    requires
        a.id == b.id,
        a.data.len() >= 1,
        b.data.len() >= 1,
        a.data[0] == b.data[0],
    ensures
        a.valid() == b.valid(),
        a.valid() <==> a.data[0] == a.id.byte(),
{
}

} // verus!
