use dual_shock_4::{
    reassemble, AnalogStickCalibrationType, CalibrationData, CalibrationDataAssembler,
    CalibrationDeviceType, ChunkOutcome, Error, ParseError, Report, ReportId,
    StickCenterCalibration, StickMinMaxCalibration, TriggerKeyCalibrationType,
    TriggerKeyLeftRight, TriggersCalibration,
};

fn chunk(tag: [u8; 2], count: u8, index: u8, data: &[u8]) -> [u8; 13] {
    let mut payload = [0u8; 13];
    payload[0] = tag[0];
    payload[1] = tag[1];
    payload[2] = count;
    payload[3] = index;
    payload[4] = data.len() as u8;
    payload[5..5 + data.len()].copy_from_slice(data);
    payload
}

const CENTER: [u8; 2] = [0x01, 0x01];
const MIN_MAX: [u8; 2] = [0x01, 0x02];
const MOTION: [u8; 2] = [0x02, 0x00];
const TRIGGER: [u8; 2] = [0x03, 0x01];
const NO_DEVICE: [u8; 2] = [0xff, 0xff];

fn center_device() -> CalibrationDeviceType {
    CalibrationDeviceType::AnalogStick(AnalogStickCalibrationType::Center)
}

#[test]
fn three_center_chunks_join_in_arrival_order() {
    let chunks = vec![
        chunk(CENTER, 3, 0, &[1, 2, 3, 4, 5, 6, 7, 8]),
        chunk(CENTER, 3, 1, &[1, 11, 12, 13, 14, 15, 16, 17]),
        chunk(CENTER, 3, 2, &[18]),
    ];
    assert_eq!(
        reassemble(&chunks),
        Ok(CalibrationData::StickCenter(
            StickCenterCalibration {
                buf: [1, 2, 3, 4, 5, 6, 7, 8]
            },
            vec![StickCenterCalibration {
                buf: [11, 12, 13, 14, 15, 16, 17, 18]
            }]
        ))
    );
}

#[test]
fn center_chunks_with_two_samples_and_a_closing_chunk() {
    let chunks = vec![
        chunk(CENTER, 4, 0, &[0x00, 0x08, 0x01, 0x08, 0x02, 0x08, 0x03, 0x08]),
        chunk(CENTER, 4, 1, &[2, 21, 22, 23, 24, 25, 26, 27]),
        chunk(CENTER, 4, 2, &[28, 31, 32, 33, 34, 35, 36, 37]),
        chunk(CENTER, 4, 3, &[38]),
        chunk(NO_DEVICE, 0, 0, &[]),
        chunk(CENTER, 4, 0, &[9, 9, 9]),
    ];
    let data = reassemble(&chunks).unwrap();
    match &data {
        CalibrationData::StickCenter(calculated, samples) => {
            assert_eq!(calculated.left_x(), 0);
            assert_eq!(calculated.left_y(), 1);
            assert_eq!(calculated.right_x(), 2);
            assert_eq!(calculated.right_y(), 3);
            assert_eq!(samples.len(), 2);
            assert_eq!(samples[0].buf, [21, 22, 23, 24, 25, 26, 27, 28]);
            assert_eq!(samples[1].buf, [31, 32, 33, 34, 35, 36, 37, 38]);
        }
        other => panic!("unexpected shape {:?}", other),
    }
}

#[test]
fn center_data_without_count_byte_has_no_samples() {
    let chunks = vec![chunk(CENTER, 1, 0, &[1, 2, 3, 4, 5, 6, 7, 8])];
    assert_eq!(
        reassemble(&chunks),
        Ok(CalibrationData::StickCenter(
            StickCenterCalibration {
                buf: [1, 2, 3, 4, 5, 6, 7, 8]
            },
            vec![]
        ))
    );
}

#[test]
fn center_data_with_count_zero_has_no_samples() {
    let chunks = vec![
        chunk(CENTER, 2, 0, &[1, 2, 3, 4, 5, 6, 7, 8]),
        chunk(CENTER, 2, 1, &[0, 99]),
    ];
    assert_eq!(
        reassemble(&chunks),
        Ok(CalibrationData::StickCenter(
            StickCenterCalibration {
                buf: [1, 2, 3, 4, 5, 6, 7, 8]
            },
            vec![]
        ))
    );
}

#[test]
fn mismatching_device_in_third_chunk_fails() {
    let chunks = vec![
        chunk(CENTER, 3, 0, &[1, 2, 3, 4, 5, 6, 7, 8]),
        chunk(CENTER, 3, 1, &[1, 11, 12, 13, 14, 15, 16, 17]),
        chunk(MIN_MAX, 3, 2, &[18]),
    ];
    assert_eq!(
        reassemble(&chunks),
        Err(ParseError::MismatchDeviceType(
            center_device(),
            CalibrationDeviceType::AnalogStick(AnalogStickCalibrationType::MinMax)
        ))
    );
}

#[test]
fn chunk_longer_than_eight_bytes_fails() {
    let mut long = chunk(CENTER, 2, 1, &[]);
    long[4] = 9;
    let chunks = vec![chunk(CENTER, 2, 0, &[1, 2, 3, 4, 5, 6, 7, 8]), long];
    assert_eq!(reassemble(&chunks), Err(ParseError::InvalidChunkLength(9)));
    let mut first = chunk(TRIGGER, 1, 0, &[]);
    first[4] = 0xff;
    assert_eq!(
        reassemble(&vec![first]),
        Err(ParseError::InvalidChunkLength(0xff))
    );
}

#[test]
fn chunk_with_malformed_device_tag_fails() {
    let chunks = vec![chunk([0x01, 0x07], 1, 0, &[1])];
    assert_eq!(
        reassemble(&chunks),
        Err(ParseError::InvalidAnalogStickCalibrationType(0x07))
    );
    let chunks = vec![chunk([0x09, 0x00], 1, 0, &[1])];
    assert_eq!(
        reassemble(&chunks),
        Err(ParseError::InvalidCalibrationDeviceType([0x09, 0x00, 0x00, 0x00]))
    );
}

#[test]
fn stream_stops_at_index_out_of_range() {
    let chunks = vec![
        chunk(TRIGGER, 2, 0, &[1, 2, 3]),
        chunk(TRIGGER, 2, 1, &[4, 5]),
        chunk(TRIGGER, 2, 2, &[6, 7]),
        chunk(TRIGGER, 2, 0, &[8]),
    ];
    assert_eq!(
        reassemble(&chunks),
        Ok(CalibrationData::Triggers(TriggersCalibration {
            buf: vec![1, 2, 3, 4, 5]
        }))
    );
}

#[test]
fn stream_with_chunk_count_zero_stops_at_once() {
    let chunks = vec![chunk(TRIGGER, 0, 0, &[1, 2, 3])];
    assert_eq!(reassemble(&chunks), Ok(CalibrationData::Raw(vec![])));
}

#[test]
fn closing_chunk_is_held_to_no_length_or_device() {
    let mut closing = chunk(MIN_MAX, 1, 1, &[]);
    closing[4] = 200;
    let chunks = vec![chunk(TRIGGER, 1, 0, &[7]), closing];
    assert_eq!(
        reassemble(&chunks),
        Ok(CalibrationData::Triggers(TriggersCalibration {
            buf: vec![7]
        }))
    );
}

#[test]
fn no_device_yields_empty_raw_data() {
    assert_eq!(
        reassemble(&vec![chunk(NO_DEVICE, 0, 0, &[])]),
        Ok(CalibrationData::Raw(vec![]))
    );
    assert_eq!(reassemble(&vec![]), Ok(CalibrationData::Raw(vec![])));
}

#[test]
fn min_max_data_is_first_sixteen_bytes() {
    let chunks = vec![
        chunk(MIN_MAX, 3, 0, &[0, 1, 2, 3, 4, 5, 6, 7]),
        chunk(MIN_MAX, 3, 1, &[8, 9, 10, 11, 12, 13, 14, 15]),
        chunk(MIN_MAX, 3, 2, &[16, 17]),
    ];
    assert_eq!(
        reassemble(&chunks),
        Ok(CalibrationData::StickMinMax(StickMinMaxCalibration {
            buf: [0, 1, 2, 3, 4, 5, 6, 7, 8, 9, 10, 11, 12, 13, 14, 15]
        }))
    );
}

#[test]
fn motion_sensor_data_stays_undecoded() {
    let chunks = vec![
        chunk(MOTION, 2, 0, &[1, 2, 3, 4]),
        chunk(MOTION, 2, 1, &[5]),
    ];
    assert_eq!(
        reassemble(&chunks),
        Ok(CalibrationData::Raw(vec![1, 2, 3, 4, 5]))
    );
}

#[test]
fn stick_type_sentinel_data_stays_undecoded() {
    let chunks = vec![chunk([0x01, 0xff], 1, 0, &[1, 2])];
    assert_eq!(reassemble(&chunks), Ok(CalibrationData::Raw(vec![1, 2])));
}

#[test]
fn truncated_stick_data_is_an_error() {
    assert_eq!(
        reassemble(&vec![chunk(CENTER, 1, 0, &[1, 2, 3, 4, 5, 6, 7])]),
        Err(ParseError::TruncatedCalibrationData(7, 8))
    );
    let chunks = vec![
        chunk(CENTER, 2, 0, &[1, 2, 3, 4, 5, 6, 7, 8]),
        chunk(CENTER, 2, 1, &[2, 1, 2, 3, 4, 5, 6, 7]),
    ];
    assert_eq!(
        reassemble(&chunks),
        Err(ParseError::TruncatedCalibrationData(16, 25))
    );
    assert_eq!(
        reassemble(&vec![chunk(MIN_MAX, 1, 0, &[1, 2, 3, 4, 5, 6, 7, 8])]),
        Err(ParseError::TruncatedCalibrationData(8, 16))
    );
}

#[test]
fn decode_shapes_by_device_type() {
    let trigger = CalibrationDeviceType::TriggerKey(TriggerKeyCalibrationType::Unknown(
        TriggerKeyLeftRight::Both,
    ));
    assert_eq!(
        CalibrationData::decode(trigger, vec![9, 8, 7]),
        Ok(CalibrationData::Triggers(TriggersCalibration {
            buf: vec![9, 8, 7]
        }))
    );
    assert_eq!(
        CalibrationData::decode(
            CalibrationDeviceType::TriggerKey(TriggerKeyCalibrationType::Unset),
            vec![]
        ),
        Ok(CalibrationData::Triggers(TriggersCalibration { buf: vec![] }))
    );
    assert_eq!(
        CalibrationData::decode(CalibrationDeviceType::Unset, vec![1]),
        Ok(CalibrationData::Raw(vec![1]))
    );
    let mut data: Vec<u8> = (0..8).collect();
    data.push(255);
    for i in 0..255u32 * 8 {
        data.push((i % 253) as u8);
    }
    match CalibrationData::decode(center_device(), data.clone()).unwrap() {
        CalibrationData::StickCenter(calculated, samples) => {
            assert_eq!(calculated.buf, [0, 1, 2, 3, 4, 5, 6, 7]);
            assert_eq!(samples.len(), 255);
            for (i, sample) in samples.iter().enumerate() {
                assert_eq!(&sample.buf[..], &data[9 + 8 * i..17 + 8 * i]);
            }
        }
        other => panic!("unexpected shape {:?}", other),
    }
    data.pop();
    assert_eq!(
        CalibrationData::decode(center_device(), data),
        Err(ParseError::TruncatedCalibrationData(2048, 2049))
    );
}

#[test]
fn assembler_takes_chunks_one_at_a_time() {
    let mut assembler = CalibrationDataAssembler::new();
    assert_eq!(assembler.device(), CalibrationDeviceType::Unset);
    assert_eq!(assembler.len(), 0);
    assert_eq!(
        assembler.accept(&chunk(TRIGGER, 2, 0, &[1, 2, 3])),
        Ok(ChunkOutcome::More)
    );
    assert_eq!(assembler.len(), 3);
    assert_eq!(
        assembler.device(),
        CalibrationDeviceType::TriggerKey(TriggerKeyCalibrationType::RecordMaxSample(
            TriggerKeyLeftRight::Unknown
        ))
    );
    assert_eq!(
        assembler.accept(&chunk(CENTER, 2, 1, &[4])),
        Err(ParseError::MismatchDeviceType(
            CalibrationDeviceType::TriggerKey(TriggerKeyCalibrationType::RecordMaxSample(
                TriggerKeyLeftRight::Unknown
            )),
            center_device()
        ))
    );
    assert_eq!(assembler.len(), 3);
    assert_eq!(
        assembler.accept(&chunk(TRIGGER, 2, 1, &[4])),
        Ok(ChunkOutcome::More)
    );
    assert_eq!(
        assembler.accept(&chunk(NO_DEVICE, 0, 0, &[])),
        Ok(ChunkOutcome::Complete)
    );
    assert_eq!(
        assembler.finish(),
        Ok(CalibrationData::Triggers(TriggersCalibration {
            buf: vec![1, 2, 3, 4]
        }))
    );
}

#[test]
fn assembler_takes_chunks_out_of_responses() {
    let mut assembler = CalibrationDataAssembler::new();
    let mut report = Report::new(ReportId::GetCalibrationData, 13);
    report
        .payload_mut()
        .copy_from_slice(&chunk(MIN_MAX, 2, 0, &[1, 2, 3, 4, 5, 6, 7, 8]));
    assert_eq!(assembler.accept_report(&report), Ok(ChunkOutcome::More));
    report.payload_mut().copy_from_slice(&chunk(TRIGGER, 2, 1, &[1]));
    assert_eq!(
        assembler.accept_report(&report),
        Err(Error::Protocol(ParseError::MismatchDeviceType(
            CalibrationDeviceType::AnalogStick(AnalogStickCalibrationType::MinMax),
            CalibrationDeviceType::TriggerKey(TriggerKeyCalibrationType::RecordMaxSample(
                TriggerKeyLeftRight::Unknown
            ))
        )))
    );
    report.data_mut()[0] = 0x00;
    assert_eq!(assembler.accept_report(&report), Err(Error::InvalidReport));
    let short = Report::new(ReportId::GetCalibrationData, 12);
    assert_eq!(assembler.accept_report(&short), Err(Error::InvalidReport));
    assert_eq!(assembler.len(), 8);
}
