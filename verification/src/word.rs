//! Sixteen-bit words: the two readings of a register (signed and unsigned)
//! and the little-endian byte pair of a word.

use vstd::prelude::*;

verus! {

/// The unsigned reading of a register: its sixteen bits taken as a number
/// in `0..=0xFFFF`.
pub open spec fn unsigned(x: i16) -> int {
    if x < 0 {
        x + 0x10000
    } else {
        x as int
    }
}

/// The register value whose sixteen bits are those of `x` reduced modulo
/// `0x10000`: the silent wrap of every arithmetic result.
pub open spec fn signed(x: int) -> i16 {
    let w = x % 0x10000;
    if w < 0x8000 {
        w as i16
    } else {
        (w - 0x10000) as i16
    }
}

/// An address or counter reduced to sixteen bits.
pub open spec fn wrap16(x: int) -> u16 {
    (x % 0x10000) as u16
}

/// The word that a little-endian byte pair holds.
pub open spec fn word_of(lo: u8, hi: u8) -> u16 {
    (lo + 256 * hi) as u16
}

/// A register read as an unsigned word and back is the register.
pub proof fn lemma_signed_unsigned(x: i16)
    ensures
        signed(unsigned(x)) == x,
        0 <= unsigned(x) <= 0xFFFF,
{
}

/// A register's bits as an unsigned word.
pub fn to_unsigned(x: i16) -> (r: u16)
    ensures
        r == unsigned(x),
{
    let r: u16 = x as u16;
    assert(r as int == if x < 0 { x as int + 0x10000 } else { x as int }) by (bit_vector)
        requires
            r == x as u16,
    ;
    r
}

/// A word's bits as a register value.
pub fn to_signed(w: u16) -> (r: i16)
    ensures
        r == signed(w as int),
{
    let r: i16 = w as i16;
    assert(r as int == if w < 0x8000 { w as int } else { w as int - 0x10000 }) by (bit_vector)
        requires
            r == w as i16,
    ;
    r
}

/// The low sixteen bits of an unsigned 32-bit value, as a register value.
pub fn low_word(x: u32) -> (r: i16)
    ensures
        r == signed(x as int),
{
    let w: u16 = (x & 0xFFFF) as u16;
    assert(w == x % 0x10000) by (bit_vector)
        requires
            w == (x & 0xFFFF) as u16,
    ;
    to_signed(w)
}

/// The low sixteen bits of a signed 32-bit value, as a register value.
pub fn low_word_signed(x: i32) -> (r: i16)
    ensures
        r == signed(x as int),
{
    let u: u32 = x as u32;
    assert(u as int == if x < 0 { x as int + 0x1_0000_0000 } else { x as int }) by (bit_vector)
        requires
            u == x as u32,
    ;
    assert((x as int) % 0x10000 == (u as int) % 0x10000);
    low_word(u)
}

/// Decodes a little-endian byte pair with `byteorder`'s
/// `LittleEndian::read_u16`. Trusted: the result is the first byte plus 256
/// times the second. The outside function panics on fewer than two bytes,
/// which `requires` leaves out.
#[verifier::external_body]
pub(crate) fn read_u16_le(buf: &[u8]) -> (r: u16)
    requires
        buf@.len() >= 2,
    ensures
        r == word_of(buf@[0], buf@[1]),
{
    <byteorder::LittleEndian as byteorder::ByteOrder>::read_u16(buf)
}

/// Encodes a word as a little-endian byte pair with `byteorder`'s
/// `LittleEndian::write_u16`, on a buffer of two bytes. Trusted: the first
/// byte is the word modulo 256 and the second the word divided by 256.
#[verifier::external_body]
pub(crate) fn write_u16_le(w: u16) -> (r: [u8; 2])
    ensures
        r@[0] == w % 256,
        r@[1] == w / 256,
{
    let mut buf = [0u8; 2];
    <byteorder::LittleEndian as byteorder::ByteOrder>::write_u16(&mut buf, w);
    buf
}

} // verus!
