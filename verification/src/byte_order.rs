//! Little-endian 16-bit fields, as the servo protocol carries positions,
//! times and voltages. The encoding itself is done by the `byteorder` crate;
//! the spec functions here say what it produces.
use byteorder::{ByteOrder, LittleEndian};
use vstd::prelude::*;

verus! {

/// The less significant byte of a 16-bit word.
pub open spec fn le_low(w: u16) -> u8 {
    (w % 256) as u8
}

/// The more significant byte of a 16-bit word.
pub open spec fn le_high(w: u16) -> u8 {
    (w / 256) as u8
}

/// The 16-bit word whose bytes, least significant first, are `lo` and `hi`.
pub open spec fn le_word(lo: u8, hi: u8) -> u16 {
    (lo + 256 * hi) as u16
}

/// Calls `byteorder::LittleEndian::write_u16`, which stores `n` in the two
/// bytes of `buf`, least significant byte first.
#[verifier::external_body]
pub(crate) fn write_u16_le(buf: &mut [u8; 2], n: u16)
    ensures
        final(buf)@ == seq![le_low(n), le_high(n)],
{
    LittleEndian::write_u16(buf, n)
}

/// Calls `byteorder::LittleEndian::write_i16`, which stores the two's
/// complement bits of `n` in the two bytes of `buf`, least significant byte
/// first.
#[verifier::external_body]
pub(crate) fn write_i16_le(buf: &mut [u8; 2], n: i16)
    ensures
        final(buf)@ == seq![le_low(n as u16), le_high(n as u16)],
{
    LittleEndian::write_i16(buf, n)
}

/// Calls `byteorder::LittleEndian::read_i16`, which reads `buf[0]` and
/// `buf[1]` as a little-endian word and takes its bits as an `i16`.
#[verifier::external_body]
pub(crate) fn read_i16_le(buf: &[u8]) -> (n: i16)
    requires
        buf@.len() >= 2,
    ensures
        n == le_word(buf@[0], buf@[1]) as i16,
{
    LittleEndian::read_i16(buf)
}

/// Reading back the two bytes written for an unsigned word gives the word.
pub proof fn law_u16_le_round_trip(w: u16)
    ensures
        le_word(le_low(w), le_high(w)) == w,
{
    assert(((w % 256) as u8 + 256 * ((w / 256) as u8)) as u16 == w) by (bit_vector);
}

/// Reading back as `i16` the two bytes written for an `i16` gives it back.
pub proof fn law_i16_le_round_trip(v: i16)
    ensures
        le_word(le_low(v as u16), le_high(v as u16)) as i16 == v,
{
    assert((((v as u16) % 256) as u8 + 256 * (((v as u16) / 256) as u8)) as u16 as i16 == v)
        by (bit_vector);
}

/// Every pair of bytes is what is written for the word read from them.
pub proof fn law_u16_le_bytes_round_trip(lo: u8, hi: u8)
    ensures
        le_low(le_word(lo, hi)) == lo,
        le_high(le_word(lo, hi)) == hi,
{
    assert(((lo + 256 * hi) as u16 % 256) as u8 == lo) by (bit_vector);
    assert(((lo + 256 * hi) as u16 / 256) as u8 == hi) by (bit_vector);
}

/// The word read from two bytes keeps every bit of both: its value is the
/// low byte plus 256 times the high byte, and taken as an `i16` it has the
/// same bits.
pub proof fn law_le_word_keeps_all_bits(lo: u8, hi: u8)
    ensures
        le_word(lo, hi) as int == lo + 256 * hi,
        (le_word(lo, hi) as i16) as u16 == le_word(lo, hi),
{
    let w = le_word(lo, hi);
    assert((w as i16) as u16 == w) by (bit_vector);
}

} // verus!
