use crate::commands::FactoryCommand;
use crate::error::Error;
use crate::stick_calibration::StickCenterCalibration;
use crate::wire::{array_from, i16_from_le, le_i16, le_u16, u16_from_le, u16_to_le, wrap16};
use vstd::prelude::*;

verus! {

/// The size of the flash mirror in bytes.
pub const FLASH_MIRROR_SIZE: usize = 0x800;

/// The number of 16-bit words in the flash mirror.
pub const FLASH_MIRROR_WORDS: usize = 0x400;

/// Where the stick centre calibration begins in the flash mirror.
pub const STICK_CENTER_CALIBRATION_OFFSET: usize = 0x11a;

/// The byte address of the word that tells whether changes reach the
/// permanent memory.
pub const PERMANENT_FLAG_ADDRESS: u16 = 12;

/// Word `k` of a byte image, little-endian, read as unsigned.
pub open spec fn word_at(bytes: Seq<u8>, k: int) -> int {
    le_u16(bytes[2 * k], bytes[2 * k + 1])
}

/// Word `k` of a byte image, little-endian, read as signed.
pub open spec fn signed_word_at(bytes: Seq<u8>, k: int) -> int {
    le_i16(bytes[2 * k], bytes[2 * k + 1])
}

/// The running sum of the words from word 1 up to, not including, word
/// `words`: signed 16-bit words, added with wraparound in 16 bits. Word 0
/// holds the checksum and has no part in it.
pub open spec fn running_sum(bytes: Seq<u8>, words: nat) -> int
    decreases words,
{
    if words <= 1 {
        0
    } else {
        wrap16(running_sum(bytes, (words - 1) as nat) + signed_word_at(bytes, words - 1))
    }
}

/// The checksum of a flash image: the bitwise complement of the running
/// sum of all words but the first, read as an unsigned 16-bit number.
pub open spec fn checksum_of(bytes: Seq<u8>) -> int {
    (-1 - running_sum(bytes, 1024)) % 65536
}

/// The checksum that a flash image stores: its first word.
pub open spec fn stored_checksum(bytes: Seq<u8>) -> int {
    word_at(bytes, 0)
}

/// The plain sum of the words from word 1 up to, not including, word
/// `words`, each read as unsigned, without wraparound.
pub open spec fn plain_sum(bytes: Seq<u8>, words: nat) -> int
    decreases words,
{
    if words <= 1 {
        0
    } else {
        plain_sum(bytes, (words - 1) as nat) + word_at(bytes, words - 1)
    }
}

/// A mirror of the device's whole non-volatile memory.
#[derive(Debug, Clone, Copy, PartialEq, Eq)]
pub struct FlashMirror {
    pub buf: [u8; 2048],
}

impl Default for FlashMirror {
    fn default() -> (mirror: Self)
        ensures
            mirror.buf@ == Seq::new(2048, |i: int| 0u8),
    {
        let mirror = FlashMirror { buf: [0u8; 2048] };
        assert(mirror.buf@ =~= Seq::new(2048, |i: int| 0u8));
        mirror
    }
}

impl FlashMirror {
    /// Tells whether the stored checksum is the one that the data has.
    pub open spec fn checksum_holds(&self) -> bool {
        stored_checksum(self.buf@) == checksum_of(self.buf@)
    }

    /// Takes a dump of the mirror: a raw image of exactly 2048 bytes. An
    /// image of another length is refused with its length and the one
    /// length that is admitted.
    pub fn from_bytes(bytes: &[u8]) -> (result: Result<Self, Error>)
        ensures
            bytes@.len() == 2048 ==> (result matches Ok(mirror) && mirror.buf@ == bytes@),
            bytes@.len() != 2048 ==> result == Err::<Self, Error>(
                Error::OutOfRange(bytes@.len() as i64, 2048, 2049),
            ),
    {
        if bytes.len() != FLASH_MIRROR_SIZE {
            return Err(Error::OutOfRange(bytes.len() as i64, 2048, 2049));
        }
        let buf = array_from::<2048>(bytes, 0);
        assert(bytes@.subrange(0, 2048) =~= bytes@);
        Ok(FlashMirror { buf })
    }

    /// Computes the checksum of the data.
    pub fn calc_crc(&self) -> (crc: u16)
        ensures
            crc == checksum_of(self.buf@),
    {
        let mut sum: i16 = 0;
        let mut half_offset: usize = 1;
        while half_offset < FLASH_MIRROR_WORDS
            invariant
                1 <= half_offset <= 1024,
                sum == running_sum(self.buf@, half_offset as nat),
            decreases 1024 - half_offset,
        {
            let first_byte_offset = half_offset * 2;
            let value = i16_from_le(self.buf[first_byte_offset], self.buf[first_byte_offset + 1]);
            let wide: i32 = sum as i32 + value as i32;
            sum = if wide > 32767 {
                (wide - 65536) as i16
            } else if wide < -32768 {
                (wide + 65536) as i16
            } else {
                wide as i16
            };
            half_offset += 1;
        }
        let complement: i32 = -1 - sum as i32;
        if complement < 0 {
            (complement + 65536) as u16
        } else {
            complement as u16
        }
    }

    /// The checksum that the mirror stores.
    pub fn crc(&self) -> (crc: u16)
        ensures
            crc == stored_checksum(self.buf@),
    {
        u16_from_le(self.buf[0], self.buf[1])
    }

    /// Tells whether the stored checksum is the one that the data has.
    pub fn check_crc(&self) -> (holds: bool)
        ensures
            holds == self.checksum_holds(),
    {
        self.calc_crc() == self.crc()
    }

    /// Stores the checksum that the data has. No other byte changes, and
    /// the checksum holds from then on.
    pub fn update_crc(&mut self)
        ensures
            final(self).buf@ == old(self).buf@.update(
                0,
                (checksum_of(old(self).buf@) % 256) as u8,
            ).update(1, (checksum_of(old(self).buf@) / 256) as u8),
            final(self).checksum_holds(),
    {
        let crc = u16_to_le(self.calc_crc());
        self.buf[0] = crc[0];
        self.buf[1] = crc[1];
        proof {
            lemma_running_sum_skips_first_word(old(self).buf@, self.buf@, 1024);
        }
    }

    /// The stick centre calibration that the mirror holds: the eight bytes
    /// from offset `0x11a` on.
    pub fn stick_center_calibration(&self) -> (calibration: StickCenterCalibration)
        ensures
            calibration.buf@ == self.buf@.subrange(0x11a, 0x122),
    {
        StickCenterCalibration {
            buf: array_from::<8>(self.buf.as_slice(), STICK_CENTER_CALIBRATION_OFFSET),
        }
    }
}

/// The running sum reads no byte of the first word.
pub proof fn lemma_running_sum_skips_first_word(a: Seq<u8>, b: Seq<u8>, words: nat)
    requires
        a.len() == b.len(),
        2 * words <= a.len(),
        forall|i: int| 2 <= i < a.len() ==> a[i] == b[i],
    ensures
        running_sum(a, words) == running_sum(b, words),
    decreases words,
{
    if words > 1 {
        lemma_running_sum_skips_first_word(a, b, (words - 1) as nat);
    }
}

/// The running sum and the plain sum of the unsigned words agree modulo
/// 2^16: to read the words as signed and to wrap the sum changes nothing
/// of the 16 bits that are kept.
pub proof fn lemma_running_sum_is_plain_sum(bytes: Seq<u8>, words: nat)
    requires
        2 * words <= bytes.len(),
    ensures
        running_sum(bytes, words) % 65536 == plain_sum(bytes, words) % 65536,
        -32768 <= running_sum(bytes, words) <= 32767,
    decreases words,
{
    if words > 1 {
        lemma_running_sum_is_plain_sum(bytes, (words - 1) as nat);
    }
}

/// The checksum is the ones' complement of the sum of the words: 65535 less
/// the plain sum of all words but the first, taken modulo 2^16.
pub proof fn lemma_checksum_is_complement_of_sum(bytes: Seq<u8>)
    requires
        bytes.len() == 2048,
    ensures
        checksum_of(bytes) == 65535 - plain_sum(bytes, 1024) % 65536,
        0 <= checksum_of(bytes) <= 65535,
{
    lemma_running_sum_is_plain_sum(bytes, 1024);
}

/// An image whose data words are all zero has the checksum `0xffff`: its
/// stored checksum holds where it is `0xffff`, and nowhere else.
pub proof fn lemma_blank_data_checksum(bytes: Seq<u8>)
    requires
        bytes.len() == 2048,
        forall|i: int| 2 <= i < 2048 ==> bytes[i] == 0,
    ensures
        checksum_of(bytes) == 0xffff,
        stored_checksum(bytes) == checksum_of(bytes) <==> bytes[0] == 0xff && bytes[1] == 0xff,
{
    lemma_blank_running_sum(bytes, 1024);
}

proof fn lemma_blank_running_sum(bytes: Seq<u8>, words: nat)
    requires
        2 * words <= bytes.len(),
        forall|i: int| 2 <= i < bytes.len() ==> bytes[i] == 0,
    ensures
        running_sum(bytes, words) == 0,
    decreases words,
{
    if words > 1 {
        lemma_blank_running_sum(bytes, (words - 1) as nat);
    }
}

/// What one changed byte adds to the word it lies in.
pub open spec fn byte_weight(index: int) -> int {
    if index % 2 == 0 {
        1
    } else {
        256
    }
}

proof fn lemma_plain_sum_of_changed_byte(bytes: Seq<u8>, index: int, value: u8, words: nat)
    requires
        2 <= index < bytes.len(),
        2 * words <= bytes.len(),
    ensures
        plain_sum(bytes.update(index, value), words) == plain_sum(bytes, words) + (if index / 2
            < words {
            (value - bytes[index]) * byte_weight(index)
        } else {
            0
        }),
    decreases words,
{
    if words > 1 {
        lemma_plain_sum_of_changed_byte(bytes, index, value, (words - 1) as nat);
    }
}

/// To change any one byte behind the checksum word changes the checksum of
/// the data: an image whose stored checksum held holds no longer.
pub proof fn lemma_changed_byte_breaks_checksum(bytes: Seq<u8>, index: int, value: u8)
    requires
        bytes.len() == 2048,
        2 <= index < 2048,
        value != bytes[index],
    ensures
        checksum_of(bytes.update(index, value)) != checksum_of(bytes),
        stored_checksum(bytes.update(index, value)) == stored_checksum(bytes),
        stored_checksum(bytes) == checksum_of(bytes) ==> stored_checksum(
            bytes.update(index, value),
        ) != checksum_of(bytes.update(index, value)),
{
    let changed = bytes.update(index, value);
    lemma_plain_sum_of_changed_byte(bytes, index, value, 1024);
    lemma_checksum_is_complement_of_sum(bytes);
    lemma_checksum_is_complement_of_sum(changed);
    let delta = (value - bytes[index]) * byte_weight(index);
    assert(delta != 0 && -65536 < delta < 65536);
}

/// Reads the flash mirror word by word, in address order: select the
/// address of a word, read its two bytes, hand them in, and so on through
/// all 1024 words.
pub struct FlashMirrorReader {
    bytes: Vec<u8>,
}

impl View for FlashMirrorReader {
    type V = Seq<u8>;

    /// The bytes read so far, in address order.
    closed spec fn view(&self) -> Seq<u8> {
        self.bytes@
    }
}

impl FlashMirrorReader {
    /// A reader that has read nothing.
    pub fn new() -> (reader: Self)
        ensures
            reader@ == Seq::<u8>::empty(),
    {
        FlashMirrorReader { bytes: Vec::new() }
    }

    /// The command that selects the next word: the byte address of the
    /// first byte not read yet. There is none once the mirror is complete.
    pub fn next_command(&self) -> (command: Option<FactoryCommand>)
        ensures
            self@.len() < 2048 ==> command == Some(
                FactoryCommand::SetIeepAddress(self@.len() as u16),
            ),
            self@.len() >= 2048 ==> command.is_none(),
    {
        let len = self.bytes.len();
        if len < FLASH_MIRROR_SIZE {
            Some(FactoryCommand::SetIeepAddress(len as u16))
        } else {
            None
        }
    }

    /// Takes the two bytes of the word that was selected. A word beyond the
    /// end of the mirror is not taken.
    pub fn accept(&mut self, word: [u8; 2]) -> (taken: bool)
        ensures
            taken == (old(self)@.len() + 2 <= 2048),
            taken ==> final(self)@ == old(self)@.push(word[0]).push(word[1]),
            !taken ==> final(self)@ == old(self)@,
    {
        if self.bytes.len() <= FLASH_MIRROR_SIZE - 2 {
            self.bytes.push(word[0]);
            self.bytes.push(word[1]);
            true
        } else {
            false
        }
    }

    /// Tells whether all words have been read.
    pub fn is_complete(&self) -> (complete: bool)
        ensures
            complete == (self@.len() == 2048),
    {
        self.bytes.len() == FLASH_MIRROR_SIZE
    }

    /// The mirror, once all words have been read.
    pub fn finish(self) -> (mirror: Option<FlashMirror>)
        ensures
            self@.len() == 2048 ==> (mirror matches Some(m) && m.buf@ == self@),
            self@.len() != 2048 ==> mirror.is_none(),
    {
        if self.bytes.len() == FLASH_MIRROR_SIZE {
            let buf = array_from::<2048>(self.bytes.as_slice(), 0);
            assert(self.bytes@.subrange(0, 2048) =~= self.bytes@);
            Some(FlashMirror { buf })
        } else {
            None
        }
    }
}

/// Tells whether the word at the permanent flag's address says that
/// changes reach the permanent memory: its first byte is zero.
pub fn is_permanent(word: [u8; 2]) -> (permanent: bool)
    ensures
        permanent == (word[0] == 0),
{
    word[0] == 0
}

} // verus!
