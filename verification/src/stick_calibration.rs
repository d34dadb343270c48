use crate::wire::{i16_from_le, le_i16, le_u16, u16_to_le, wrap16};
use vstd::prelude::*;

verus! {

/// The largest raw value of a stick calibration field: twelve bits.
pub const STICK_CALIBRATION_RANGE: u16 = 0xfff;

/// The raw value that stands for the signed coordinate zero.
pub const STICK_CALIBRATION_HALF_RANGE: u16 = 2048;

/// The signed coordinate held by field `index` of a calibration buffer: the
/// field's little-endian 16-bit pattern, read as signed, less the half range.
/// A pattern too low for the result to fit wraps around in 16 bits.
pub open spec fn offset_value(bytes: Seq<u8>, index: int) -> int {
    wrap16(le_i16(bytes[2 * index], bytes[2 * index + 1]) - 2048)
}

/// The raw value stored for a signed coordinate: the coordinate plus the half
/// range, clamped to the twelve-bit range.
pub open spec fn offset_raw(value: int) -> int {
    if value + 2048 < 0 {
        0
    } else if value + 2048 > 4095 {
        4095
    } else {
        value + 2048
    }
}

/// A calibration buffer after a signed coordinate was written to field
/// `index`: the field's two bytes hold the raw value in little-endian order,
/// every other byte is as before.
pub open spec fn with_offset_value(bytes: Seq<u8>, index: int, value: int) -> Seq<u8> {
    bytes.update(2 * index, (offset_raw(value) % 256) as u8).update(
        2 * index + 1,
        (offset_raw(value) / 256) as u8,
    )
}

/// Reading a field gives back what was written to it, for every coordinate
/// from -2048 to 2047.
pub proof fn lemma_offset_value_round_trip(bytes: Seq<u8>, index: int, value: int)
    requires
        0 <= index,
        2 * index + 1 < bytes.len(),
        -2048 <= value <= 2047,
    ensures
        offset_value(with_offset_value(bytes, index, value), index) == value,
{
    let raw = offset_raw(value);
    let lo = (raw % 256) as u8;
    let hi = (raw / 256) as u8;
    assert(le_u16(lo, hi) == raw);
}

/// Reading a field after a write gives the written coordinate clamped to the
/// range from -2048 to 2047.
pub proof fn lemma_offset_value_clamped(bytes: Seq<u8>, index: int, value: int)
    requires
        0 <= index,
        2 * index + 1 < bytes.len(),
    ensures
        offset_value(with_offset_value(bytes, index, value), index) == offset_raw(value) - 2048,
{
    let raw = offset_raw(value);
    let lo = (raw % 256) as u8;
    let hi = (raw / 256) as u8;
    assert(le_u16(lo, hi) == raw);
}

/// Writing one field leaves every other field as it was.
pub proof fn lemma_offset_value_frame(bytes: Seq<u8>, index: int, value: int, other: int)
    requires
        0 <= index,
        2 * index + 1 < bytes.len(),
        0 <= other,
        2 * other + 1 < bytes.len(),
        other != index,
    ensures
        offset_value(with_offset_value(bytes, index, value), other) == offset_value(bytes, other),
{
}

/// Reads the signed coordinate from the two bytes of a field.
fn read_offset_value(lo: u8, hi: u8) -> (value: i16)
    ensures
        value == wrap16(le_i16(lo, hi) - 2048),
{
    let shifted: i32 = i16_from_le(lo, hi) as i32 - STICK_CALIBRATION_HALF_RANGE as i32;
    if shifted < -32768 {
        (shifted + 65536) as i16
    } else {
        shifted as i16
    }
}

/// The two bytes of a field for a signed coordinate.
fn offset_value_bytes(value: i16) -> (bytes: [u8; 2])
    ensures
        bytes[0] == (offset_raw(value as int) % 256) as u8,
        bytes[1] == (offset_raw(value as int) / 256) as u8,
{
    let shifted: i32 = value as i32 + STICK_CALIBRATION_HALF_RANGE as i32;
    let raw: u16 = if shifted < 0 {
        0
    } else if shifted > STICK_CALIBRATION_RANGE as i32 {
        STICK_CALIBRATION_RANGE
    } else {
        shifted as u16
    };
    u16_to_le(raw)
}

/// The centre position of both sticks: four fields, left x, left y, right x,
/// right y.
#[derive(Debug, Clone, Copy, PartialEq, Eq)]
pub struct StickCenterCalibration {
    pub buf: [u8; 8],
}

impl Default for StickCenterCalibration {
    fn default() -> (calibration: Self)
        ensures
            calibration.buf@ == Seq::new(8, |i: int| 0u8),
    {
        let calibration = StickCenterCalibration { buf: [0u8; 8] };
        assert(calibration.buf@ =~= Seq::new(8, |i: int| 0u8));
        calibration
    }
}

impl StickCenterCalibration {
    /// The signed coordinate of field `index`.
    pub open spec fn value(&self, index: int) -> int {
        offset_value(self.buf@, index)
    }

    fn get_value_at_index(&self, index: u8) -> (value: i16)
        requires
            index < 4,
        ensures
            value == self.value(index as int),
    {
        let first: usize = index as usize * 2;
        read_offset_value(self.buf[first], self.buf[first + 1])
    }

    fn set_value_at_index(&mut self, index: u8, value: i16)
        requires
            index < 4,
        ensures
            final(self).buf@ == with_offset_value(old(self).buf@, index as int, value as int),
            final(self).value(index as int) == offset_raw(value as int) - 2048,
            -2048 <= value <= 2047 ==> final(self).value(index as int) == value,
            forall|other: int|
                0 <= other < 4 && other != index ==> final(self).value(other) == old(self).value(other),
    {
        let first: usize = index as usize * 2;
        let bytes = offset_value_bytes(value);
        self.buf[first] = bytes[0];
        self.buf[first + 1] = bytes[1];
        proof {
            lemma_offset_value_clamped(old(self).buf@, index as int, value as int);
            assert forall|other: int| 0 <= other < 4 && other != index implies self.value(other) == old(self).value(other) by {
                lemma_offset_value_frame(old(self).buf@, index as int, value as int, other);
            }
        }
    }

    pub fn left_x(&self) -> (value: i16)
        ensures
            value == self.value(0),
    {
        self.get_value_at_index(0)
    }

    pub fn left_y(&self) -> (value: i16)
        ensures
            value == self.value(1),
    {
        self.get_value_at_index(1)
    }

    pub fn right_x(&self) -> (value: i16)
        ensures
            value == self.value(2),
    {
        self.get_value_at_index(2)
    }

    pub fn right_y(&self) -> (value: i16)
        ensures
            value == self.value(3),
    {
        self.get_value_at_index(3)
    }

    pub fn set_left_x(&mut self, value: i16)
        ensures
            final(self).buf@ == with_offset_value(old(self).buf@, 0, value as int),
            -2048 <= value <= 2047 ==> final(self).value(0) == value,
            forall|other: int|
                0 <= other < 4 && other != 0 ==> final(self).value(other) == old(self).value(other),
    {
        self.set_value_at_index(0, value);
    }

    pub fn set_left_y(&mut self, value: i16)
        ensures
            final(self).buf@ == with_offset_value(old(self).buf@, 1, value as int),
            -2048 <= value <= 2047 ==> final(self).value(1) == value,
            forall|other: int|
                0 <= other < 4 && other != 1 ==> final(self).value(other) == old(self).value(other),
    {
        self.set_value_at_index(1, value);
    }

    pub fn set_right_x(&mut self, value: i16)
        ensures
            final(self).buf@ == with_offset_value(old(self).buf@, 2, value as int),
            -2048 <= value <= 2047 ==> final(self).value(2) == value,
            forall|other: int|
                0 <= other < 4 && other != 2 ==> final(self).value(other) == old(self).value(other),
    {
        self.set_value_at_index(2, value);
    }

    pub fn set_right_y(&mut self, value: i16)
        ensures
            final(self).buf@ == with_offset_value(old(self).buf@, 3, value as int),
            -2048 <= value <= 2047 ==> final(self).value(3) == value,
            forall|other: int|
                0 <= other < 4 && other != 3 ==> final(self).value(other) == old(self).value(other),
    {
        self.set_value_at_index(3, value);
    }
}

/// The range of both sticks: eight fields, the least and the greatest value
/// of each axis, left x, left y, right x, right y.
#[derive(Debug, Clone, Copy, PartialEq, Eq)]
pub struct StickMinMaxCalibration {
    pub buf: [u8; 16],
}

impl Default for StickMinMaxCalibration {
    fn default() -> (calibration: Self)
        ensures
            calibration.buf@ == Seq::new(16, |i: int| 0u8),
    {
        let calibration = StickMinMaxCalibration { buf: [0u8; 16] };
        assert(calibration.buf@ =~= Seq::new(16, |i: int| 0u8));
        calibration
    }
}

impl StickMinMaxCalibration {
    /// The signed coordinate of field `index`.
    pub open spec fn value(&self, index: int) -> int {
        offset_value(self.buf@, index)
    }

    fn get_value_at_index(&self, index: u8) -> (value: i16)
        requires
            index < 8,
        ensures
            value == self.value(index as int),
    {
        let first: usize = index as usize * 2;
        read_offset_value(self.buf[first], self.buf[first + 1])
    }

    fn set_value_at_index(&mut self, index: u8, value: i16)
        requires
            index < 8,
        ensures
            final(self).buf@ == with_offset_value(old(self).buf@, index as int, value as int),
            final(self).value(index as int) == offset_raw(value as int) - 2048,
            -2048 <= value <= 2047 ==> final(self).value(index as int) == value,
            forall|other: int|
                0 <= other < 8 && other != index ==> final(self).value(other) == old(self).value(other),
    {
        let first: usize = index as usize * 2;
        let bytes = offset_value_bytes(value);
        self.buf[first] = bytes[0];
        self.buf[first + 1] = bytes[1];
        proof {
            lemma_offset_value_clamped(old(self).buf@, index as int, value as int);
            assert forall|other: int| 0 <= other < 8 && other != index implies self.value(other) == old(self).value(other) by {
                lemma_offset_value_frame(old(self).buf@, index as int, value as int, other);
            }
        }
    }

    pub fn left_min_x(&self) -> (value: i16)
        ensures
            value == self.value(0),
    {
        self.get_value_at_index(0)
    }

    pub fn left_max_x(&self) -> (value: i16)
        ensures
            value == self.value(1),
    {
        self.get_value_at_index(1)
    }

    pub fn left_min_y(&self) -> (value: i16)
        ensures
            value == self.value(2),
    {
        self.get_value_at_index(2)
    }

    pub fn left_max_y(&self) -> (value: i16)
        ensures
            value == self.value(3),
    {
        self.get_value_at_index(3)
    }

    pub fn right_min_x(&self) -> (value: i16)
        ensures
            value == self.value(4),
    {
        self.get_value_at_index(4)
    }

    pub fn right_max_x(&self) -> (value: i16)
        ensures
            value == self.value(5),
    {
        self.get_value_at_index(5)
    }

    pub fn right_min_y(&self) -> (value: i16)
        ensures
            value == self.value(6),
    {
        self.get_value_at_index(6)
    }

    pub fn right_max_y(&self) -> (value: i16)
        ensures
            value == self.value(7),
    {
        self.get_value_at_index(7)
    }

    pub fn set_left_min_x(&mut self, value: i16)
        ensures
            final(self).buf@ == with_offset_value(old(self).buf@, 0, value as int),
            -2048 <= value <= 2047 ==> final(self).value(0) == value,
            forall|other: int|
                0 <= other < 8 && other != 0 ==> final(self).value(other) == old(self).value(other),
    {
        self.set_value_at_index(0, value);
    }

    pub fn set_left_max_x(&mut self, value: i16)
        ensures
            final(self).buf@ == with_offset_value(old(self).buf@, 1, value as int),
            -2048 <= value <= 2047 ==> final(self).value(1) == value,
            forall|other: int|
                0 <= other < 8 && other != 1 ==> final(self).value(other) == old(self).value(other),
    {
        self.set_value_at_index(1, value);
    }

    pub fn set_left_min_y(&mut self, value: i16)
        ensures
            final(self).buf@ == with_offset_value(old(self).buf@, 2, value as int),
            -2048 <= value <= 2047 ==> final(self).value(2) == value,
            forall|other: int|
                0 <= other < 8 && other != 2 ==> final(self).value(other) == old(self).value(other),
    {
        self.set_value_at_index(2, value);
    }

    pub fn set_left_max_y(&mut self, value: i16)
        ensures
            final(self).buf@ == with_offset_value(old(self).buf@, 3, value as int),
            -2048 <= value <= 2047 ==> final(self).value(3) == value,
            forall|other: int|
                0 <= other < 8 && other != 3 ==> final(self).value(other) == old(self).value(other),
    {
        self.set_value_at_index(3, value);
    }

    pub fn set_right_min_x(&mut self, value: i16)
        ensures
            final(self).buf@ == with_offset_value(old(self).buf@, 4, value as int),
            -2048 <= value <= 2047 ==> final(self).value(4) == value,
            forall|other: int|
                0 <= other < 8 && other != 4 ==> final(self).value(other) == old(self).value(other),
    {
        self.set_value_at_index(4, value);
    }

    pub fn set_right_max_x(&mut self, value: i16)
        ensures
            final(self).buf@ == with_offset_value(old(self).buf@, 5, value as int),
            -2048 <= value <= 2047 ==> final(self).value(5) == value,
            forall|other: int|
                0 <= other < 8 && other != 5 ==> final(self).value(other) == old(self).value(other),
    {
        self.set_value_at_index(5, value);
    }

    pub fn set_right_min_y(&mut self, value: i16)
        ensures
            final(self).buf@ == with_offset_value(old(self).buf@, 6, value as int),
            -2048 <= value <= 2047 ==> final(self).value(6) == value,
            forall|other: int|
                0 <= other < 8 && other != 6 ==> final(self).value(other) == old(self).value(other),
    {
        self.set_value_at_index(6, value);
    }

    pub fn set_right_max_y(&mut self, value: i16)
        ensures
            final(self).buf@ == with_offset_value(old(self).buf@, 7, value as int),
            -2048 <= value <= 2047 ==> final(self).value(7) == value,
            forall|other: int|
                0 <= other < 8 && other != 7 ==> final(self).value(other) == old(self).value(other),
    {
        self.set_value_at_index(7, value);
    }
}

} // verus!
