use crate::calibration::CalibrationDeviceType;
use crate::calibration_data::{decoded_calibration_data, CalibrationData, CalibrationDataView};
use crate::error::{Error, ParseError};
use crate::hid_report::{Report, ReportId};
use vstd::prelude::*;

verus! {

/// What has been gathered of a calibration data stream: the data bytes in
/// arrival order, and the device type of the last chunk taken.
pub struct Gathered {
    pub data: Seq<u8>,
    pub device: CalibrationDeviceType,
}

/// What taking one chunk leads to.
#[derive(Debug, Clone, Copy, PartialEq, Eq, Structural)]
pub enum ChunkOutcome {
    /// The chunk's data was appended; ask for the next chunk.
    More,
    /// The chunk closes the stream and carries no data.
    Complete,
}

/// The payload of a chunk as an array of its thirteen bytes.
pub open spec fn chunk_of(payload: Seq<u8>) -> [u8; 13] {
    [
        payload[0],
        payload[1],
        payload[2],
        payload[3],
        payload[4],
        payload[5],
        payload[6],
        payload[7],
        payload[8],
        payload[9],
        payload[10],
        payload[11],
        payload[12],
    ]
}

/// The device type that a chunk reports: its first two bytes, widened to
/// four.
pub open spec fn chunk_device(payload: [u8; 13]) -> Result<CalibrationDeviceType, ParseError> {
    CalibrationDeviceType::decoding([payload[0], payload[1], 0x00, 0x00])
}

/// The number of chunks that a chunk says the stream has.
pub open spec fn chunk_count(payload: [u8; 13]) -> u8 {
    payload[2]
}

/// The place in the stream that a chunk claims.
pub open spec fn chunk_index(payload: [u8; 13]) -> u8 {
    payload[3]
}

/// The number of data bytes that a chunk declares.
pub open spec fn chunk_length(payload: [u8; 13]) -> u8 {
    payload[4]
}

/// The data bytes of a chunk.
pub open spec fn chunk_data(payload: [u8; 13]) -> Seq<u8> {
    payload@.subrange(5, 5 + chunk_length(payload))
}

/// Tells whether a chunk closes the stream: it reports no device, or its
/// index lies outside the stream.
pub open spec fn chunk_closes(payload: [u8; 13]) -> bool {
    chunk_device(payload) == Ok::<CalibrationDeviceType, ParseError>(CalibrationDeviceType::Unset)
        || chunk_index(payload) >= chunk_count(payload)
}

/// One step of the reassembly. `Ok(None)` says that the chunk closes the
/// stream; `Ok(Some(..))` is what has been gathered once the chunk's data is
/// appended.
///
/// A chunk whose device bytes name no device type is an error. So is one
/// that reports another device than the chunk before it, and one that
/// declares more bytes than a chunk carries; a closing chunk is held to
/// neither.
pub open spec fn gather(so_far: Gathered, payload: [u8; 13]) -> Result<Option<Gathered>, ParseError> {
    match chunk_device(payload) {
        Err(e) => Err(e),
        Ok(device) => if chunk_closes(payload) {
            Ok(None)
        } else if so_far.device != CalibrationDeviceType::Unset && so_far.device != device {
            Err(ParseError::MismatchDeviceType(so_far.device, device))
        } else if chunk_length(payload) > 8 {
            Err(ParseError::InvalidChunkLength(chunk_length(payload)))
        } else {
            Ok(Some(Gathered { data: so_far.data + chunk_data(payload), device }))
        },
    }
}

/// The reassembly of a whole recorded stream, chunk by chunk from the
/// front. It ends at the first closing chunk, at the first error, or where
/// the record ends.
pub open spec fn gather_all(so_far: Gathered, chunks: Seq<[u8; 13]>) -> Result<Gathered, ParseError>
    decreases chunks.len(),
{
    if chunks.len() == 0 {
        Ok(so_far)
    } else {
        match gather(so_far, chunks[0]) {
            Err(e) => Err(e),
            Ok(None) => Ok(so_far),
            Ok(Some(next)) => gather_all(next, chunks.skip(1)),
        }
    }
}

/// Nothing gathered yet.
pub open spec fn nothing_gathered() -> Gathered {
    Gathered { data: Seq::empty(), device: CalibrationDeviceType::Unset }
}

/// The calibration data that a recorded stream of chunks stands for.
pub open spec fn reassembled(chunks: Seq<[u8; 13]>) -> Result<CalibrationDataView, ParseError> {
    match gather_all(nothing_gathered(), chunks) {
        Err(e) => Err(e),
        Ok(gathered) => decoded_calibration_data(gathered.device, gathered.data),
    }
}

/// Gathers the chunks of a calibration data stream, one exchange at a time.
pub struct CalibrationDataAssembler {
    data: Vec<u8>,
    last_device: CalibrationDeviceType,
}

impl View for CalibrationDataAssembler {
    type V = Gathered;

    closed spec fn view(&self) -> Gathered {
        Gathered { data: self.data@, device: self.last_device }
    }
}

impl CalibrationDataAssembler {
    /// An assembler that has taken no chunk.
    pub fn new() -> (assembler: Self)
        ensures
            assembler@ == nothing_gathered(),
    {
        CalibrationDataAssembler { data: Vec::new(), last_device: CalibrationDeviceType::Unset }
    }

    /// The device type of the last chunk whose data was appended.
    pub fn device(&self) -> (device: CalibrationDeviceType)
        ensures
            device == self@.device,
    {
        self.last_device
    }

    /// The number of data bytes gathered.
    pub fn len(&self) -> (len: usize)
        ensures
            len == self@.data.len(),
    {
        self.data.len()
    }

    /// Takes the payload of one chunk. On `More` the chunk's data has been
    /// appended; on `Complete` and on an error nothing has changed.
    pub fn accept(&mut self, payload: &[u8; 13]) -> (outcome: Result<ChunkOutcome, ParseError>)
        ensures
            match gather(old(self)@, *payload) {
                Err(e) => outcome == Err::<ChunkOutcome, ParseError>(e) && final(self)@ == old(self)@,
                Ok(None) => outcome == Ok::<ChunkOutcome, ParseError>(ChunkOutcome::Complete)
                    && final(self)@ == old(self)@,
                Ok(Some(next)) => outcome == Ok::<ChunkOutcome, ParseError>(ChunkOutcome::More)
                    && final(self)@ == next,
            },
    {
        let tag = [payload[0], payload[1], 0x00, 0x00];
        assert(tag =~= [payload[0], payload[1], 0x00, 0x00]);
        let device = match CalibrationDeviceType::decode(tag) {
            Err(e) => {
                return Err(e);
            },
            Ok(device) => device,
        };
        let chunks = payload[2];
        let current_chunk = payload[3];
        let data_len = payload[4];
        if device == CalibrationDeviceType::Unset || current_chunk >= chunks {
            return Ok(ChunkOutcome::Complete);
        }
        if self.last_device != CalibrationDeviceType::Unset && self.last_device != device {
            return Err(ParseError::MismatchDeviceType(self.last_device, device));
        }
        if data_len > 8 {
            return Err(ParseError::InvalidChunkLength(data_len));
        }
        let mut i: usize = 0;
        while i < data_len as usize
            invariant
                i <= data_len <= 8,
                self.last_device == old(self).last_device,
                self.data@ == old(self).data@ + payload@.subrange(5, 5 + i),
            decreases data_len - i,
        {
            self.data.push(payload[5 + i]);
            i += 1;
            assert(old(self).data@ + payload@.subrange(5, 5 + i) =~= (old(self).data@
                + payload@.subrange(5, 5 + i - 1)).push(payload@[5 + i - 1]));
        }
        self.last_device = device;
        Ok(ChunkOutcome::More)
    }

    /// Takes one chunk out of the response to a calibration data request.
    /// A frame that is no such response is refused as invalid, and nothing
    /// changes; its payload is taken as `accept` takes it.
    pub fn accept_report(&mut self, report: &Report) -> (outcome: Result<ChunkOutcome, Error>)
        ensures
            !report.answers(ReportId::GetCalibrationData, 13) ==> outcome == Err::<
                ChunkOutcome,
                Error,
            >(Error::InvalidReport) && final(self)@ == old(self)@,
            report.answers(ReportId::GetCalibrationData, 13) ==> match gather(
                old(self)@,
                chunk_of(report@.payload()),
            ) {
                Err(e) => outcome == Err::<ChunkOutcome, Error>(Error::Protocol(e))
                    && final(self)@ == old(self)@,
                Ok(None) => outcome == Ok::<ChunkOutcome, Error>(ChunkOutcome::Complete)
                    && final(self)@ == old(self)@,
                Ok(Some(next)) => outcome == Ok::<ChunkOutcome, Error>(ChunkOutcome::More)
                    && final(self)@ == next,
            },
    {
        let payload = match report.response_payload::<13>(ReportId::GetCalibrationData) {
            Ok(payload) => payload,
            Err(e) => {
                return Err(e);
            },
        };
        assert(payload =~= chunk_of(report@.payload()));
        match self.accept(&payload) {
            Ok(outcome) => Ok(outcome),
            Err(e) => Err(Error::Protocol(e)),
        }
    }

    /// Shapes what was gathered by the device type of the last chunk taken.
    pub fn finish(self) -> (result: Result<CalibrationData, ParseError>)
        ensures
            match result {
                Ok(calibration) => decoded_calibration_data(self@.device, self@.data) == Ok::<
                    CalibrationDataView,
                    ParseError,
                >(calibration@),
                Err(e) => decoded_calibration_data(self@.device, self@.data) == Err::<
                    CalibrationDataView,
                    ParseError,
                >(e),
            },
    {
        CalibrationData::decode(self.last_device, self.data)
    }
}

/// Reassembles the calibration data from a recorded stream of chunk
/// payloads, in the order in which they arrived.
pub fn reassemble(chunks: &Vec<[u8; 13]>) -> (result: Result<CalibrationData, ParseError>)
    ensures
        match result {
            Ok(calibration) => reassembled(chunks@) == Ok::<CalibrationDataView, ParseError>(
                calibration@,
            ),
            Err(e) => reassembled(chunks@) == Err::<CalibrationDataView, ParseError>(e),
        },
{
    let mut assembler = CalibrationDataAssembler::new();
    let mut i: usize = 0;
    assert(chunks@.skip(0) =~= chunks@);
    while i < chunks.len()
        invariant
            i <= chunks@.len(),
            gather_all(nothing_gathered(), chunks@) == gather_all(assembler@, chunks@.skip(i as int)),
        decreases chunks@.len() - i,
    {
        let ghost rest = chunks@.skip(i as int);
        assert(rest[0] == chunks@[i as int]);
        assert(rest.skip(1) =~= chunks@.skip(i + 1));
        match assembler.accept(&chunks[i]) {
            Err(e) => {
                return Err(e);
            },
            Ok(ChunkOutcome::Complete) => {
                return assembler.finish();
            },
            Ok(ChunkOutcome::More) => {},
        }
        i += 1;
    }
    assert(chunks@.skip(i as int).len() == 0);
    assembler.finish()
}

/// Tells whether a chunk carries data of a device: it reports that device,
/// its index lies inside the stream, and it declares no more bytes than a
/// chunk holds.
pub open spec fn chunk_carries(payload: [u8; 13], device: CalibrationDeviceType) -> bool {
    &&& chunk_device(payload) == Ok::<CalibrationDeviceType, ParseError>(device)
    &&& device != CalibrationDeviceType::Unset
    &&& chunk_index(payload) < chunk_count(payload)
    &&& chunk_length(payload) <= 8
}

/// The data bytes of a run of chunks, joined in arrival order.
pub open spec fn joined_data(chunks: Seq<[u8; 13]>) -> Seq<u8>
    decreases chunks.len(),
{
    if chunks.len() == 0 {
        Seq::empty()
    } else {
        chunk_data(chunks[0]) + joined_data(chunks.skip(1))
    }
}

/// While the first `k` chunks of a record all carry data of one device, the
/// reassembly takes them all: it goes on behind them with their data joined
/// in arrival order to what was gathered before.
pub proof fn lemma_gather_carrying_prefix(
    so_far: Gathered,
    chunks: Seq<[u8; 13]>,
    k: int,
    device: CalibrationDeviceType,
)
    requires
        0 < k <= chunks.len(),
        so_far.device == CalibrationDeviceType::Unset || so_far.device == device,
        forall|i: int| 0 <= i < k ==> chunk_carries(#[trigger] chunks[i], device),
    ensures
        gather_all(so_far, chunks) == gather_all(
            Gathered { data: so_far.data + joined_data(chunks.take(k)), device },
            chunks.skip(k),
        ),
    decreases k,
{
    let first = chunks[0];
    assert(chunk_carries(first, device));
    let next = Gathered { data: so_far.data + chunk_data(first), device };
    assert(gather(so_far, first) == Ok::<Option<Gathered>, ParseError>(Some(next)));
    let head = chunks.take(k);
    assert(head[0] == first);
    if k == 1 {
        assert(head.skip(1).len() == 0);
        assert(joined_data(head.skip(1)) =~= Seq::<u8>::empty());
        assert(joined_data(head) =~= chunk_data(first));
    } else {
        let rest = chunks.skip(1);
        assert forall|i: int| 0 <= i < k - 1 implies chunk_carries(#[trigger] rest[i], device) by {
            assert(rest[i] == chunks[i + 1]);
        }
        lemma_gather_carrying_prefix(next, rest, k - 1, device);
        assert(rest.take(k - 1) =~= head.skip(1));
        assert(rest.skip(k - 1) =~= chunks.skip(k));
        assert(next.data + joined_data(rest.take(k - 1)) =~= so_far.data + joined_data(head));
    }
}

/// A recorded stream whose chunks all carry data of one device reassembles
/// to their data bytes joined in arrival order, under that device.
pub proof fn lemma_reassembly_joins_in_order(chunks: Seq<[u8; 13]>, device: CalibrationDeviceType)
    requires
        chunks.len() > 0,
        forall|i: int| 0 <= i < chunks.len() ==> chunk_carries(#[trigger] chunks[i], device),
    ensures
        gather_all(nothing_gathered(), chunks) == Ok::<Gathered, ParseError>(
            Gathered { data: joined_data(chunks), device },
        ),
        reassembled(chunks) == decoded_calibration_data(device, joined_data(chunks)),
{
    let k = chunks.len() as int;
    lemma_gather_carrying_prefix(nothing_gathered(), chunks, k, device);
    assert(chunks.take(k) =~= chunks);
    assert(chunks.skip(k).len() == 0);
    assert(Seq::<u8>::empty() + joined_data(chunks) =~= joined_data(chunks));
}

/// A stream whose first `k` chunks carry data of one device, and whose next
/// chunk is in range but reports another device, fails with a mismatch that
/// names both, whatever follows.
pub proof fn lemma_reassembly_rejects_mismatch(
    chunks: Seq<[u8; 13]>,
    k: int,
    device: CalibrationDeviceType,
    other: CalibrationDeviceType,
)
    requires
        0 < k < chunks.len(),
        forall|i: int| 0 <= i < k ==> chunk_carries(#[trigger] chunks[i], device),
        chunk_device(chunks[k]) == Ok::<CalibrationDeviceType, ParseError>(other),
        other != CalibrationDeviceType::Unset,
        other != device,
        chunk_index(chunks[k]) < chunk_count(chunks[k]),
    ensures
        gather_all(nothing_gathered(), chunks) == Err::<Gathered, ParseError>(
            ParseError::MismatchDeviceType(device, other),
        ),
        reassembled(chunks) == Err::<CalibrationDataView, ParseError>(
            ParseError::MismatchDeviceType(device, other),
        ),
{
    lemma_gather_carrying_prefix(nothing_gathered(), chunks, k, device);
    assert(chunks.skip(k)[0] == chunks[k]);
    assert(chunk_carries(chunks[0], device));
}

/// A stream whose first `k` chunks carry data, and whose next chunk is in
/// range with the same device but declares more than eight bytes, fails on
/// that length, whatever follows.
pub proof fn lemma_reassembly_rejects_long_chunk(
    chunks: Seq<[u8; 13]>,
    k: int,
    device: CalibrationDeviceType,
)
    requires
        0 < k < chunks.len(),
        forall|i: int| 0 <= i < k ==> chunk_carries(#[trigger] chunks[i], device),
        chunk_device(chunks[k]) == Ok::<CalibrationDeviceType, ParseError>(device),
        chunk_index(chunks[k]) < chunk_count(chunks[k]),
        chunk_length(chunks[k]) > 8,
    ensures
        reassembled(chunks) == Err::<CalibrationDataView, ParseError>(
            ParseError::InvalidChunkLength(chunk_length(chunks[k])),
        ),
{
    lemma_gather_carrying_prefix(nothing_gathered(), chunks, k, device);
    assert(chunks.skip(k)[0] == chunks[k]);
    assert(chunk_carries(chunks[0], device));
}

/// What follows a closing chunk has no part in the result.
pub proof fn lemma_reassembly_stops_at_close(chunks: Seq<[u8; 13]>, k: int, device: CalibrationDeviceType)
    requires
        0 < k < chunks.len(),
        forall|i: int| 0 <= i < k ==> chunk_carries(#[trigger] chunks[i], device),
        chunk_device(chunks[k]) is Ok,
        chunk_closes(chunks[k]),
    ensures
        reassembled(chunks) == decoded_calibration_data(device, joined_data(chunks.take(k))),
{
    lemma_gather_carrying_prefix(nothing_gathered(), chunks, k, device);
    assert(chunks.skip(k)[0] == chunks[k]);
    assert(Seq::<u8>::empty() + joined_data(chunks.take(k)) =~= joined_data(chunks.take(k)));
}

} // verus!
