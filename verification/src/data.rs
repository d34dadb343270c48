use crate::wire::{i16_from_le, le_i16, le_u16, u16_from_le};
use vstd::prelude::*;

verus! {

/// The size of an input snapshot.
pub const DATA_PACKET_SIZE: usize = 64;

/// Where the directional pad stands: the eight compass points, or released.
#[derive(Debug, Clone, Copy, PartialEq, Eq, Structural)]
pub enum DPadState {
    UpLeft,
    Left,
    DownLeft,
    Down,
    DownRight,
    Right,
    UpRight,
    Up,
    Released,
}

/// The state that a directional pad nibble stands for. The codes run
/// clockwise from up; a nibble that is none of the eight means released.
pub open spec fn d_pad_of_nibble(nibble: int) -> DPadState {
    if nibble == 0 {
        DPadState::Up
    } else if nibble == 1 {
        DPadState::UpRight
    } else if nibble == 2 {
        DPadState::Right
    } else if nibble == 3 {
        DPadState::DownRight
    } else if nibble == 4 {
        DPadState::Down
    } else if nibble == 5 {
        DPadState::DownLeft
    } else if nibble == 6 {
        DPadState::Left
    } else if nibble == 7 {
        DPadState::UpLeft
    } else {
        DPadState::Released
    }
}

/// The raw position of one stick: each axis from 0 to 255, the centre
/// between 127 and 128.
#[derive(Debug, Clone, Copy, PartialEq, Eq, Structural)]
pub struct StickPosition {
    pub x: u8,
    pub y: u8,
}

impl StickPosition {
    /// The horizontal deflection in units of 1/255 of the way from the
    /// centre to either end: -255 at the left end, 255 at the right end.
    /// Divided by 255 it is `x / 127.5 - 1`.
    pub fn deflection_x(&self) -> (deflection: i16)
        ensures
            deflection == 2 * self.x - 255,
            -255 <= deflection <= 255,
    {
        2 * (self.x as i16) - 255
    }

    /// The vertical deflection in units of 1/255 of the way from the centre
    /// to either end, upwards positive: 255 at raw 0, -255 at raw 255.
    /// Divided by 255 it is `1 - y / 127.5`.
    pub fn deflection_y(&self) -> (deflection: i16)
        ensures
            deflection == 255 - 2 * self.y,
            -255 <= deflection <= 255,
    {
        255 - 2 * (self.y as i16)
    }
}

/// One input snapshot, read by position.
#[derive(Debug, Clone, Copy, PartialEq, Eq)]
pub struct Data {
    pub buf: [u8; 64],
}

impl Data {
    /// Tells whether every byte of a snapshot is zero.
    pub open spec fn all_zero(&self) -> bool {
        forall|i: int| 0 <= i < 64 ==> self.buf[i] == 0
    }

    /// The rolling counter of a snapshot: the upper six bits of byte 7.
    pub open spec fn sequence(&self) -> int {
        self.buf[7] as int / 4
    }

    /// A snapshot of zero bytes, which stands for no report.
    pub fn zeroed() -> (data: Self)
        ensures
            data.all_zero(),
    {
        Data { buf: [0u8; 64] }
    }

    /// Tells whether every byte is zero.
    pub fn is_zeroed(&self) -> (zeroed: bool)
        ensures
            zeroed == self.all_zero(),
    {
        let mut i: usize = 0;
        while i < 64
            invariant
                i <= 64,
                forall|k: int| 0 <= k < i ==> self.buf[k] == 0,
            decreases 64 - i,
        {
            if self.buf[i] != 0 {
                return false;
            }
            i += 1;
        }
        true
    }

    pub fn left_stick_position(&self) -> (position: StickPosition)
        ensures
            position == (StickPosition { x: self.buf[1], y: self.buf[2] }),
    {
        StickPosition { x: self.buf[1], y: self.buf[2] }
    }

    pub fn right_stick_position(&self) -> (position: StickPosition)
        ensures
            position == (StickPosition { x: self.buf[3], y: self.buf[4] }),
    {
        StickPosition { x: self.buf[3], y: self.buf[4] }
    }

    /// The triangle button.
    pub fn triangle(&self) -> (pressed: bool)
        ensures
            pressed == (self.buf[5] & 0x80 != 0),
    {
        self.buf[5] & 0x80 != 0
    }

    /// The circle button.
    pub fn circle(&self) -> (pressed: bool)
        ensures
            pressed == (self.buf[5] & 0x40 != 0),
    {
        self.buf[5] & 0x40 != 0
    }

    /// The cross button.
    pub fn cross(&self) -> (pressed: bool)
        ensures
            pressed == (self.buf[5] & 0x20 != 0),
    {
        self.buf[5] & 0x20 != 0
    }

    /// The square button.
    pub fn square(&self) -> (pressed: bool)
        ensures
            pressed == (self.buf[5] & 0x10 != 0),
    {
        self.buf[5] & 0x10 != 0
    }

    /// The directional pad: the lower nibble of byte 5.
    pub fn d_pad(&self) -> (state: DPadState)
        ensures
            state == d_pad_of_nibble(self.buf[5] as int % 16),
    {
        match self.buf[5] % 16 {
            7 => DPadState::UpLeft,
            6 => DPadState::Left,
            5 => DPadState::DownLeft,
            4 => DPadState::Down,
            3 => DPadState::DownRight,
            2 => DPadState::Right,
            1 => DPadState::UpRight,
            0 => DPadState::Up,
            _ => DPadState::Released,
        }
    }

    /// The right stick, pressed.
    pub fn r3(&self) -> (pressed: bool)
        ensures
            pressed == (self.buf[6] & 0x80 != 0),
    {
        self.buf[6] & 0x80 != 0
    }

    /// The left stick, pressed.
    pub fn l3(&self) -> (pressed: bool)
        ensures
            pressed == (self.buf[6] & 0x40 != 0),
    {
        self.buf[6] & 0x40 != 0
    }

    /// The options button.
    pub fn options(&self) -> (pressed: bool)
        ensures
            pressed == (self.buf[6] & 0x20 != 0),
    {
        self.buf[6] & 0x20 != 0
    }

    /// The share button.
    pub fn share(&self) -> (pressed: bool)
        ensures
            pressed == (self.buf[6] & 0x10 != 0),
    {
        self.buf[6] & 0x10 != 0
    }

    /// The right trigger, as a button.
    pub fn r2(&self) -> (pressed: bool)
        ensures
            pressed == (self.buf[6] & 0x08 != 0),
    {
        self.buf[6] & 0x08 != 0
    }

    /// The left trigger, as a button.
    pub fn l2(&self) -> (pressed: bool)
        ensures
            pressed == (self.buf[6] & 0x04 != 0),
    {
        self.buf[6] & 0x04 != 0
    }

    /// The right shoulder button.
    pub fn r1(&self) -> (pressed: bool)
        ensures
            pressed == (self.buf[6] & 0x02 != 0),
    {
        self.buf[6] & 0x02 != 0
    }

    /// The left shoulder button.
    pub fn l1(&self) -> (pressed: bool)
        ensures
            pressed == (self.buf[6] & 0x01 != 0),
    {
        self.buf[6] & 0x01 != 0
    }

    /// The rolling counter: the upper six bits of byte 7.
    pub fn counter(&self) -> (counter: u8)
        ensures
            counter == self.sequence(),
            counter < 64,
    {
        self.buf[7] / 4
    }

    /// The touch pad, pressed.
    pub fn t_pad_click(&self) -> (pressed: bool)
        ensures
            pressed == (self.buf[7] & 0x02 != 0),
    {
        self.buf[7] & 0x02 != 0
    }

    /// The PS button.
    pub fn ps(&self) -> (pressed: bool)
        ensures
            pressed == (self.buf[7] & 0x01 != 0),
    {
        self.buf[7] & 0x01 != 0
    }

    /// How far the left trigger is pressed.
    pub fn l2_trigger(&self) -> (value: u8)
        ensures
            value == self.buf[8],
    {
        self.buf[8]
    }

    /// How far the right trigger is pressed.
    pub fn r2_trigger(&self) -> (value: u8)
        ensures
            value == self.buf[9],
    {
        self.buf[9]
    }

    /// The timestamp: bytes 10 and 11, little-endian.
    pub fn timestamp(&self) -> (value: u16)
        ensures
            value == le_u16(self.buf[10], self.buf[11]),
    {
        u16_from_le(self.buf[10], self.buf[11])
    }

    /// The battery byte.
    pub fn battery(&self) -> (value: u8)
        ensures
            value == self.buf[12],
    {
        self.buf[12]
    }

    /// The gyroscope's x axis.
    pub fn gyroscope_x(&self) -> (value: i16)
        ensures
            value == le_i16(self.buf[13], self.buf[14]),
    {
        i16_from_le(self.buf[13], self.buf[14])
    }

    /// The gyroscope's y axis.
    pub fn gyroscope_y(&self) -> (value: i16)
        ensures
            value == le_i16(self.buf[15], self.buf[16]),
    {
        i16_from_le(self.buf[15], self.buf[16])
    }

    /// The gyroscope's z axis.
    pub fn gyroscope_z(&self) -> (value: i16)
        ensures
            value == le_i16(self.buf[17], self.buf[18]),
    {
        i16_from_le(self.buf[17], self.buf[18])
    }

    /// The accelerometer's x axis.
    pub fn accelerometer_x(&self) -> (value: i16)
        ensures
            value == le_i16(self.buf[19], self.buf[20]),
    {
        i16_from_le(self.buf[19], self.buf[20])
    }

    /// The accelerometer's y axis.
    pub fn accelerometer_y(&self) -> (value: i16)
        ensures
            value == le_i16(self.buf[21], self.buf[22]),
    {
        i16_from_le(self.buf[21], self.buf[22])
    }

    /// The accelerometer's z axis.
    pub fn accelerometer_z(&self) -> (value: i16)
        ensures
            value == le_i16(self.buf[23], self.buf[24]),
    {
        i16_from_le(self.buf[23], self.buf[24])
    }
}

/// The directional pad is up at nibble zero, and released at every nibble
/// that is none of the eight compass codes.
pub proof fn lemma_d_pad_up_and_released(data: Data)
    ensures
        data.buf[5] % 16 == 0 ==> d_pad_of_nibble(data.buf[5] as int % 16) == DPadState::Up,
        data.buf[5] % 16 >= 8 ==> d_pad_of_nibble(data.buf[5] as int % 16) == DPadState::Released,
        d_pad_of_nibble(data.buf[5] as int % 16) == DPadState::Released ==> data.buf[5] % 16 >= 8,
{
}

} // verus!
