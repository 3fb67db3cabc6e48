//! Little-endian encoding of halfwords and words.

use vstd::prelude::*;
use byteorder::{ByteOrder, LittleEndian};

verus! {

/// The halfword whose little-endian bytes are `b0`, `b1`.
pub open spec fn u16_from_le(b0: u8, b1: u8) -> u16 {
    (b0 + 256 * b1) as u16
}

/// The word whose little-endian bytes are `b0` to `b3`.
pub open spec fn u32_from_le(b0: u8, b1: u8, b2: u8, b3: u8) -> u32 {
    (b0 + 256 * b1 + 65536 * b2 + 16777216 * b3) as u32
}

/// The two bytes of a halfword, least significant first.
pub open spec fn u16_to_le(value: u16) -> Seq<u8> {
    seq![(value % 256) as u8, (value / 256) as u8]
}

/// The four bytes of a word, least significant first.
pub open spec fn u32_to_le(value: u32) -> Seq<u8> {
    seq![
        (value % 256) as u8,
        ((value / 256) % 256) as u8,
        ((value / 65536) % 256) as u8,
        (value / 16777216) as u8,
    ]
}

/// Reading the bytes of a halfword gives the halfword back; likewise for a
/// word.
pub proof fn lemma_le_round_trip(half: u16, word: u32)
    ensures
        u16_to_le(half).len() == 2,
        u16_from_le(u16_to_le(half)[0], u16_to_le(half)[1]) == half,
        u32_to_le(word).len() == 4,
        u32_from_le(u32_to_le(word)[0], u32_to_le(word)[1], u32_to_le(word)[2], u32_to_le(word)[3])
            == word,
{
}

/// `byteorder::LittleEndian::read_u16`: the halfword made of the first two
/// bytes of `buf`, the first being the less significant. It panics on a
/// shorter buffer, which `requires` leaves out.
#[verifier::external_body]
pub(crate) fn read_u16_le(buf: &[u8]) -> (value: u16)
    requires
        buf@.len() >= 2,
    ensures
        value == u16_from_le(buf@[0], buf@[1]),
{
    LittleEndian::read_u16(buf)
}

/// `byteorder::LittleEndian::read_u32`: the word made of the first four
/// bytes of `buf`, the first being the least significant. It panics on a
/// shorter buffer, which `requires` leaves out.
#[verifier::external_body]
pub(crate) fn read_u32_le(buf: &[u8]) -> (value: u32)
    requires
        buf@.len() >= 4,
    ensures
        value == u32_from_le(buf@[0], buf@[1], buf@[2], buf@[3]),
{
    LittleEndian::read_u32(buf)
}

/// `byteorder::LittleEndian::write_u16`: overwrites the first two bytes of
/// `buf` with those of `value`, least significant first, and leaves the rest
/// as it was. It panics on a shorter buffer, which `requires` leaves out.
#[verifier::external_body]
pub(crate) fn write_u16_le(buf: &mut [u8], value: u16)
    requires
        old(buf)@.len() >= 2,
    ensures
        final(buf)@ == u16_to_le(value) + old(buf)@.subrange(2, old(buf)@.len() as int),
{
    LittleEndian::write_u16(buf, value)
}

/// `byteorder::LittleEndian::write_u32`: overwrites the first four bytes of
/// `buf` with those of `value`, least significant first, and leaves the rest
/// as it was. It panics on a shorter buffer, which `requires` leaves out.
#[verifier::external_body]
pub(crate) fn write_u32_le(buf: &mut [u8], value: u32)
    requires
        old(buf)@.len() >= 4,
    ensures
        final(buf)@ == u32_to_le(value) + old(buf)@.subrange(4, old(buf)@.len() as int),
{
    LittleEndian::write_u32(buf, value)
}

} // verus!
