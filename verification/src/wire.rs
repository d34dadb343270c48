use vstd::prelude::*;

verus! {

/// The unsigned 16-bit number whose little-endian bytes are `lo`, `hi`.
pub open spec fn le_u16(lo: u8, hi: u8) -> int {
    lo as int + 256 * (hi as int)
}

/// A 16-bit pattern, given as an unsigned number, read as two's complement.
pub open spec fn signed16(raw: int) -> int {
    if raw >= 32768 {
        raw - 65536
    } else {
        raw
    }
}

/// Any integer brought into the signed 16-bit range by wraparound.
pub open spec fn wrap16(value: int) -> int {
    signed16(value % 65536)
}

/// The signed 16-bit number whose little-endian bytes are `lo`, `hi`.
pub open spec fn le_i16(lo: u8, hi: u8) -> int {
    signed16(le_u16(lo, hi))
}

/// Reads an unsigned 16-bit number from its little-endian bytes.
pub fn u16_from_le(lo: u8, hi: u8) -> (value: u16)
    ensures
        value == le_u16(lo, hi),
{
    lo as u16 + 256 * (hi as u16)
}

/// Reads a signed 16-bit number from its little-endian bytes.
pub fn i16_from_le(lo: u8, hi: u8) -> (value: i16)
    ensures
        value == le_i16(lo, hi),
{
    let raw: i32 = lo as i32 + 256 * (hi as i32);
    if raw >= 32768 {
        (raw - 65536) as i16
    } else {
        raw as i16
    }
}

/// Splits an unsigned 16-bit number into its little-endian bytes.
pub fn u16_to_le(value: u16) -> (bytes: [u8; 2])
    ensures
        bytes[0] == value % 256,
        bytes[1] == value / 256,
        le_u16(bytes[0], bytes[1]) == value,
{
    [(value % 256) as u8, (value / 256) as u8]
}

/// Splits an unsigned 16-bit number into its big-endian bytes.
pub fn u16_to_be(value: u16) -> (bytes: [u8; 2])
    ensures
        bytes[0] == value / 256,
        bytes[1] == value % 256,
        le_u16(bytes[1], bytes[0]) == value,
{
    [(value / 256) as u8, (value % 256) as u8]
}

/// Copies `N` bytes of a slice, from index `start` on, into an array.
pub fn array_from<const N: usize>(bytes: &[u8], start: usize) -> (array: [u8; N])
    requires
        start + N <= bytes@.len(),
    ensures
        array@ == bytes@.subrange(start as int, start + N),
{
    let len: usize = bytes.len();
    let mut array: [u8; N] = [0u8; N];
    let mut i: usize = 0;
    while i < N
        invariant
            i <= N,
            start + N <= len,
            len == bytes@.len(),
            forall|k: int| 0 <= k < i ==> array@[k] == bytes@[start + k],
        decreases N - i,
    {
        array[i] = bytes[start + i];
        i += 1;
    }
    assert(array@ =~= bytes@.subrange(start as int, start + N));
    array
}

} // verus!
