use crate::calibration_data::{
    CalibrationData, CalibrationDataView, MotionCalibration, TriggersCalibration,
};
use vstd::prelude::*;

verus! {

/// Why a text is no hexadecimal rendering of the bytes asked for.
#[derive(Debug, Clone, Copy, PartialEq, Eq)]
pub enum HexError {
    /// A character that is no hexadecimal digit, and its place in the text.
    InvalidHexCharacter { c: char, index: usize },
    /// The text has an odd number of digits.
    OddLength,
    /// The text does not have two digits for each byte asked for.
    InvalidStringLength,
}

/// The lowercase hexadecimal digit of a number from 0 to 15.
pub open spec fn hex_digit(nibble: int) -> char {
    seq!['0', '1', '2', '3', '4', '5', '6', '7', '8', '9', 'a', 'b', 'c', 'd', 'e', 'f'][nibble]
}

/// The hexadecimal rendering of bytes: two lowercase digits for each byte,
/// the upper four bits first.
pub open spec fn hex_digits(bytes: Seq<u8>) -> Seq<char> {
    Seq::new(
        2 * bytes.len(),
        |i: int|
            if i % 2 == 0 {
                hex_digit(bytes[i / 2] as int / 16)
            } else {
                hex_digit(bytes[i / 2] as int % 16)
            },
    )
}

/// Tells whether a character, given as its byte, is a hexadecimal digit of
/// either case.
pub open spec fn is_hex_digit(c: u8) -> bool {
    (0x30 <= c <= 0x39) || (0x41 <= c <= 0x46) || (0x61 <= c <= 0x66)
}

/// The number that a hexadecimal digit stands for.
pub open spec fn hex_value(c: u8) -> int {
    if 0x30 <= c <= 0x39 {
        c - 0x30
    } else if 0x41 <= c <= 0x46 {
        c - 0x41 + 10
    } else {
        c - 0x61 + 10
    }
}

/// The place of the first character from `from` on that is no hexadecimal
/// digit, or the length of the text where there is none.
pub open spec fn first_invalid(text: Seq<u8>, from: int) -> int
    decreases text.len() - from,
{
    if from < 0 || from >= text.len() {
        text.len() as int
    } else if !is_hex_digit(text[from]) {
        from
    } else {
        first_invalid(text, from + 1)
    }
}

/// The byte that digits `2 * k` and `2 * k + 1` of a text stand for.
pub open spec fn hex_byte(text: Seq<u8>, k: int) -> u8 {
    (16 * hex_value(text[2 * k]) + hex_value(text[2 * k + 1])) as u8
}

/// How decoding a text into `size` bytes ends: an odd length is refused
/// first, then a length that is not twice `size`, then the first character
/// that is no digit.
pub open spec fn hex_outcome(text: Seq<u8>, size: int) -> Result<(), HexError> {
    if text.len() % 2 != 0 {
        Err(HexError::OddLength)
    } else if text.len() / 2 != size {
        Err(HexError::InvalidStringLength)
    } else if first_invalid(text, 0) < text.len() {
        Err(
            HexError::InvalidHexCharacter {
                c: text[first_invalid(text, 0)] as char,
                index: first_invalid(text, 0) as usize,
            },
        )
    } else {
        Ok(())
    }
}

/// What a buffer holds after a text was decoded into it. A text of the
/// wrong length leaves it as it was. Otherwise every byte whose two digits
/// lie before the first character that is no digit is written, and the
/// bytes from there on are as before.
pub open spec fn hex_written(text: Seq<u8>, before: Seq<u8>) -> Seq<u8> {
    if text.len() % 2 != 0 || text.len() / 2 != before.len() {
        before
    } else {
        Seq::new(
            before.len(),
            |k: int|
                if k < first_invalid(text, 0) / 2 {
                    hex_byte(text, k)
                } else {
                    before[k]
                },
        )
    }
}

/// `hex::encode`: renders bytes as lowercase hexadecimal digits, two for
/// each byte, the upper four bits first.
#[verifier::external_body]
fn hex_encode(bytes: &[u8]) -> (text: String)
    ensures
        text@ == hex_digits(bytes@),
{
    hex::encode(bytes)
}

/// `hex::decode_to_slice`: decodes hexadecimal digits of either case into a
/// buffer of exactly half the text's length. It checks the lengths before
/// it writes, then writes byte by byte from the front and stops at the
/// first character that is no digit, which it reports with its place.
#[verifier::external_body]
fn hex_decode_to_slice(text: &[u8], out: &mut [u8]) -> (result: Result<(), HexError>)
    ensures
        result == hex_outcome(text@, old(out)@.len() as int),
        final(out)@ == hex_written(text@, old(out)@),
{
    match hex::decode_to_slice(text, out) {
        Ok(()) => Ok(()),
        Err(hex::FromHexError::InvalidHexCharacter { c, index }) => Err(
            HexError::InvalidHexCharacter { c, index },
        ),
        Err(hex::FromHexError::OddLength) => Err(HexError::OddLength),
        Err(hex::FromHexError::InvalidStringLength) => Err(HexError::InvalidStringLength),
    }
}

/// The text of a motion calibration form as it is decoded: its first
/// eighty characters, filled up to eighty with the digit zero.
pub open spec fn motion_form_text(text: Seq<u8>) -> Seq<u8> {
    Seq::new(
        80,
        |i: int|
            if i < text.len() {
                text[i]
            } else {
                0x30u8
            },
    )
}

impl MotionCalibration {
    /// The block as hexadecimal text.
    pub fn to_hex(&self) -> (text: String)
        ensures
            text@ == hex_digits(self.buf@),
            text@.len() == 80,
    {
        hex_encode(self.buf.as_slice())
    }

    /// Takes the block from the text of a form. The text is cut to eighty
    /// characters, or filled up to eighty with the digit zero, and then
    /// decoded. Where a character is no hexadecimal digit, the bytes before
    /// it have been taken and the rest of the block is as it was.
    pub fn set_from_hex(&mut self, text: &[u8]) -> (result: Result<(), HexError>)
        ensures
            result == hex_outcome(motion_form_text(text@), 40),
            final(self).buf@ == hex_written(motion_form_text(text@), old(self).buf@),
            result is Err ==> (result matches Err(HexError::InvalidHexCharacter { index, .. })
                && index < 80),
    {
        let mut padded: Vec<u8> = Vec::new();
        let mut i: usize = 0;
        while i < 80
            invariant
                i <= 80,
                padded@.len() == i,
                forall|k: int| 0 <= k < i ==> padded@[k] == motion_form_text(text@)[k],
            decreases 80 - i,
        {
            if i < text.len() {
                padded.push(text[i]);
            } else {
                padded.push(0x30);
            }
            i += 1;
        }
        assert(padded@ =~= motion_form_text(text@));
        proof {
            lemma_first_invalid_bounds(padded@, 0);
        }
        hex_decode_to_slice(padded.as_slice(), &mut self.buf)
    }
}

impl TriggersCalibration {
    /// The data as hexadecimal text.
    pub fn to_hex(&self) -> (text: String)
        ensures
            text@ == hex_digits(self.buf@),
    {
        hex_encode(self.buf.as_slice())
    }
}

impl CalibrationData {
    /// The hexadecimal text of data that is kept as bytes: trigger data and
    /// undecoded data. Stick data has fields of its own and no such text.
    pub fn undecoded_hex(&self) -> (text: Option<String>)
        ensures
            match self@ {
                CalibrationDataView::Triggers(data) => text matches Some(t) && t@ == hex_digits(
                    data,
                ),
                CalibrationDataView::Raw(data) => text matches Some(t) && t@ == hex_digits(data),
                _ => text.is_none(),
            },
    {
        match self {
            CalibrationData::Triggers(calibration) => Some(calibration.to_hex()),
            CalibrationData::Raw(data) => Some(hex_encode(data.as_slice())),
            _ => None,
        }
    }
}

/// The first character that is no digit lies in the text, from `from` on,
/// and every character between is a digit.
pub proof fn lemma_first_invalid_bounds(text: Seq<u8>, from: int)
    requires
        0 <= from <= text.len(),
    ensures
        from <= first_invalid(text, from) <= text.len(),
        forall|i: int| from <= i < first_invalid(text, from) ==> is_hex_digit(text[i]),
        first_invalid(text, from) < text.len() ==> !is_hex_digit(text[first_invalid(text, from)]),
    decreases text.len() - from,
{
    if from < text.len() && is_hex_digit(text[from]) {
        lemma_first_invalid_bounds(text, from + 1);
    }
}

/// A text made of the digits of some bytes decodes to those bytes: decoding
/// takes back what encoding gave.
pub proof fn lemma_hex_round_trip(bytes: Seq<u8>, text: Seq<u8>, before: Seq<u8>)
    requires
        text.len() == 2 * bytes.len(),
        before.len() == bytes.len(),
        forall|i: int| 0 <= i < text.len() ==> text[i] as char == hex_digits(bytes)[i],
    ensures
        hex_outcome(text, bytes.len() as int) == Ok::<(), HexError>(()),
        hex_written(text, before) == bytes,
{
    assert forall|i: int| 0 <= i < text.len() implies is_hex_digit(text[i]) && hex_value(text[i])
        == (if i % 2 == 0 {
        bytes[i / 2] as int / 16
    } else {
        bytes[i / 2] as int % 16
    }) by {
        let nibble = if i % 2 == 0 {
            bytes[i / 2] as int / 16
        } else {
            bytes[i / 2] as int % 16
        };
        assert(0 <= nibble < 16);
        assert(0 <= i / 2 < bytes.len());
        assert(hex_digits(bytes)[i] == hex_digit(nibble));
        lemma_digit_value(text[i], nibble);
    }
    lemma_first_invalid_bounds(text, 0);
    assert(first_invalid(text, 0) == text.len());
    assert(hex_written(text, before) =~= bytes);
}

proof fn lemma_digit_value(c: u8, nibble: int)
    requires
        0 <= nibble < 16,
        c as char == hex_digit(nibble),
    ensures
        is_hex_digit(c),
        hex_value(c) == nibble,
{
    let digits = seq![
        '0',
        '1',
        '2',
        '3',
        '4',
        '5',
        '6',
        '7',
        '8',
        '9',
        'a',
        'b',
        'c',
        'd',
        'e',
        'f',
    ];
    assert(digits[nibble] == hex_digit(nibble));
    assert(c as char as u8 == c);
}

} // verus!
